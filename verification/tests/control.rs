use rusty_picopd::control::ControlState;
use rusty_picopd::control::Controller;
use rusty_picopd::control::OutputAction;
use rusty_picopd::regs::Status;

#[test]
fn boot_state_is_negotiating() {
    let c = Controller::new();
    assert_eq!(c.state, ControlState::Negotiating);
    assert!(!c.first_done);
}

#[test]
fn fault_wins_over_success_and_ready() {
    // ovp + success + ready: the fault bit forces Faulted and deasserts
    // the output; success/ready never override it.
    let mut c = Controller::new();
    c.first_done = true;
    let out = c.step(Status(0x13));
    assert_eq!(c.state, ControlState::Faulted);
    assert_eq!(out.action, OutputAction::Disable);
    assert!(!out.renegotiate);
    assert!(!out.reload_pdos);
}

#[test]
fn fault_wins_over_renegotiation() {
    // ovp + newpdos, and the first update still pending: the fault still
    // wins and no renegotiation is asked for.
    let mut c = Controller::new();
    let out = c.step(Status(0x15));
    assert_eq!(c.state, ControlState::Faulted);
    assert_eq!(out.action, OutputAction::Disable);
    assert!(!out.renegotiate);
    assert!(!c.first_done);
}

#[test]
fn each_fault_bit_disables() {
    for raw in [0x10u8, 0x20, 0x40] {
        let mut c = Controller::new();
        c.first_done = true;
        let out = c.step(Status(raw | 0x03));
        assert_eq!(c.state, ControlState::Faulted);
        assert_eq!(out.action, OutputAction::Disable);
    }
}

#[test]
fn first_update_reloads_and_renegotiates() {
    // Boot scenario: the first update returns ready without newpdos.
    // Because it is the first update, the table is reloaded and
    // selection proceeds anyway.
    let mut c = Controller::new();
    let out = c.step(Status(0x01));
    assert_eq!(c.state, ControlState::Negotiating);
    assert_eq!(out.action, OutputAction::Keep);
    assert!(out.reload_pdos);
    assert!(out.renegotiate);
    assert!(c.first_done);

    // The next successful status then enables the output.
    let out = c.step(Status(0x03));
    assert_eq!(c.state, ControlState::Enabled);
    assert_eq!(out.action, OutputAction::Enable);
    assert!(!out.renegotiate);
}

#[test]
fn newpdos_triggers_renegotiation_without_reload() {
    // After the first update the driver refreshes the table itself on
    // ready+newpdos, so a step only asks to re-run the selector.
    let mut c = Controller::new();
    c.first_done = true;
    let out = c.step(Status(0x05));
    assert_eq!(c.state, ControlState::Negotiating);
    assert!(out.renegotiate);
    assert!(!out.reload_pdos);
    assert_eq!(out.action, OutputAction::Keep);
}

#[test]
fn renegotiation_wins_over_success() {
    // ready + success + newpdos: the fresh table takes precedence and the
    // machine re-enters Negotiating instead of Enabled.
    let mut c = Controller::new();
    c.first_done = true;
    let out = c.step(Status(0x07));
    assert_eq!(c.state, ControlState::Negotiating);
    assert!(out.renegotiate);
    assert_eq!(out.action, OutputAction::Keep);
}

#[test]
fn no_news_changes_nothing() {
    let mut c = Controller::new();
    c.first_done = true;
    let out = c.step(Status(0x01));
    assert_eq!(c.state, ControlState::Negotiating);
    assert_eq!(out.action, OutputAction::Keep);
    assert!(!out.renegotiate);
    assert!(!out.reload_pdos);

    // Ready alone from Enabled leaves the machine enabled and the output
    // untouched.
    c.state = ControlState::Enabled;
    let out = c.step(Status(0x01));
    assert_eq!(c.state, ControlState::Enabled);
    assert_eq!(out.action, OutputAction::Keep);
}

#[test]
fn faulted_does_not_recover_by_itself() {
    let mut c = Controller::new();
    c.first_done = true;
    c.step(Status(0x13));
    assert_eq!(c.state, ControlState::Faulted);

    // An empty status gives no new information: still faulted.
    let out = c.step(Status(0x00));
    assert_eq!(c.state, ControlState::Faulted);
    assert_eq!(out.action, OutputAction::Keep);

    // Only a qualifying update re-asserts: a fresh successful status.
    let out = c.step(Status(0x03));
    assert_eq!(c.state, ControlState::Enabled);
    assert_eq!(out.action, OutputAction::Enable);
}

#[test]
fn full_boot_sequence() {
    let mut c = Controller::new();

    // Not ready yet: nothing happens, but the first update is consumed.
    let out = c.step(Status(0x00));
    assert_eq!(c.state, ControlState::Negotiating);
    assert!(out.renegotiate);
    assert!(out.reload_pdos);

    // Chip renegotiated: reselect.
    let out = c.step(Status(0x05));
    assert!(out.renegotiate);
    assert!(!out.reload_pdos);

    // Contract accepted: enable.
    let out = c.step(Status(0x03));
    assert_eq!(c.state, ControlState::Enabled);
    assert_eq!(out.action, OutputAction::Enable);

    // Over-current fault: disable at once.
    let out = c.step(Status(0x23));
    assert_eq!(c.state, ControlState::Faulted);
    assert_eq!(out.action, OutputAction::Disable);
}
