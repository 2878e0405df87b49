//! The reactive control core: a state machine that consumes status
//! updates and gates the power-enable output.
//!
//! Each time a status byte is obtained (on the chip's interrupt line or a
//! periodic poll), [`Controller::step`] decides the next state and what
//! to do with the output. A protection fault always wins: it forces the
//! `Faulted` state and deasserts the output, whatever else the status
//! says. Otherwise the first update since boot, or a fresh PDO table,
//! triggers renegotiation; otherwise a ready-and-successful status
//! asserts the output; otherwise nothing changes.

use vstd::prelude::*;

use crate::regs::Status;

verus! {

/// The three states of the control core. `Faulted` does not recover by
/// itself: only a later qualifying update (a fresh negotiation followed
/// by a successful status) re-asserts the output.
#[derive(Clone, Copy, Debug, PartialEq, Eq, Structural)]
pub enum ControlState {
    Negotiating,
    Enabled,
    Faulted,
}

/// What a step asks of the power-enable output: drive it low, drive it
/// high, or leave it as it is.
#[derive(Clone, Copy, Debug, PartialEq, Eq, Structural)]
pub enum OutputAction {
    Disable,
    Enable,
    Keep,
}

/// What the caller must do after a step: drive the output as `action`
/// says; if `reload_pdos`, re-read the whole PDO block (mandatory on the
/// first update, since the chip need not flag `newpdos` on the very
/// first poll after power-up); if `renegotiate`, re-run the profile
/// selector over the current table and write the request it builds, if
/// any.
#[derive(Clone, Copy, Debug, PartialEq, Eq, Structural)]
pub struct StepOutcome {
    pub action: OutputAction,
    pub reload_pdos: bool,
    pub renegotiate: bool,
}

/// The control state machine: the current state and whether the first
/// status update since boot has been consumed.
#[derive(Clone, Copy, Debug, PartialEq, Eq, Structural)]
pub struct Controller {
    pub state: ControlState,
    pub first_done: bool,
}

impl Controller {
    /// A freshly booted controller: negotiating, first update pending.
    pub fn new() -> (r: Controller)
        ensures
            r.state is Negotiating,
            !r.first_done,
    {
        Controller { state: ControlState::Negotiating, first_done: false }
    }

    /// Consume one status update.
    ///
    /// Evaluated in strict priority order: a fault bit (`ovp`, `ocp`,
    /// `otp`) unconditionally forces `Faulted` and deasserts the output
    /// — `ready`/`success` never override it. Else the first update
    /// since boot, or `newpdos`, triggers renegotiation and the state
    /// (re-)enters `Negotiating`. Else `ready && success` enters
    /// `Enabled` and asserts the output. Else the update carries no new
    /// information: state and output stay as they are.
    pub fn step(&mut self, status: Status) -> (r: StepOutcome)
        ensures
            status.spec_fault() ==> {
                &&& final(self).state is Faulted
                &&& r.action is Disable
                &&& !r.renegotiate
                &&& !r.reload_pdos
                &&& final(self).first_done == old(self).first_done
            },
            !status.spec_fault() && (!old(self).first_done || status.spec_newpdos()) ==> {
                &&& final(self).state is Negotiating
                &&& r.action is Keep
                &&& r.renegotiate
                &&& r.reload_pdos == !old(self).first_done
                &&& final(self).first_done
            },
            !status.spec_fault() && old(self).first_done && !status.spec_newpdos() && (
            status.spec_ready() && status.spec_success()) ==> {
                &&& final(self).state is Enabled
                &&& r.action is Enable
                &&& !r.renegotiate
                &&& !r.reload_pdos
                &&& final(self).first_done
            },
            !status.spec_fault() && old(self).first_done && !status.spec_newpdos() && !(
            status.spec_ready() && status.spec_success()) ==> {
                &&& *final(self) == *old(self)
                &&& r.action is Keep
                &&& !r.renegotiate
                &&& !r.reload_pdos
            },
    {
        if status.fault() {
            self.state = ControlState::Faulted;
            StepOutcome { action: OutputAction::Disable, reload_pdos: false, renegotiate: false }
        } else if !self.first_done || status.newpdos() {
            let reload: bool = !self.first_done;
            self.first_done = true;
            self.state = ControlState::Negotiating;
            StepOutcome { action: OutputAction::Keep, reload_pdos: reload, renegotiate: true }
        } else if status.ready() && status.success() {
            self.state = ControlState::Enabled;
            StepOutcome { action: OutputAction::Enable, reload_pdos: false, renegotiate: false }
        } else {
            StepOutcome { action: OutputAction::Keep, reload_pdos: false, renegotiate: false }
        }
    }
}

} // verus!
