//! Profile selection: a pure scan over the PDO table that picks the best
//! electrically compatible offer and builds the request word for it.
//!
//! The scan walks the slots in ascending position order keeping a running
//! best. A compatible slot replaces the running best when there is none
//! yet, when it is programmable and the best so far is fixed, or when it
//! is of the same variant and offers strictly more current. A fixed slot
//! never replaces a programmable one, and ties keep the earlier slot.

use vstd::prelude::*;

use crate::regs::ARDO;
use crate::regs::FixedRDO;
use crate::regs::PDO;
use crate::regs::RDO;
use crate::regs::lemma_ardo_compose;
use crate::regs::lemma_fixed_rdo_compose;
use crate::regs::spec_ardo_word;
use crate::regs::spec_fixed_rdo_word;

verus! {

/// The caller's desired operating point, immutable per negotiation
/// attempt: nominal/min/max voltage in millivolts, nominal/min current
/// in milliamps.
#[derive(Clone, Copy, Debug, PartialEq, Eq, Structural)]
pub struct Target {
    pub v_nom: u32,
    pub v_min: u32,
    pub v_max: u32,
    pub i_nom: u32,
    pub i_min: u32,
}

/// An offer is compatible when its voltage range overlaps the target
/// range and its maximum current meets the target minimum.
pub open spec fn compatible(p: PDO, t: Target) -> bool {
    p.spec_vcomp(t.v_min, t.v_max) && p.spec_icomp(t.i_min)
}

/// Both offers are of the same variant.
pub open spec fn same_variant(a: PDO, b: PDO) -> bool {
    (a is Fixed && b is Fixed) || (a is Programmable && b is Programmable)
}

/// Strict priority of a new compatible offer over the running best: a
/// programmable offer beats a fixed one, a fixed offer never beats a
/// programmable one, and between equal variants strictly more current
/// wins.
pub open spec fn beats(new: PDO, cur: PDO) -> bool {
    if new is Programmable && cur is Fixed {
        true
    } else if new is Fixed && cur is Programmable {
        false
    } else {
        new.spec_imax() > cur.spec_imax()
    }
}

/// The running best after scanning slots `0 .. n` (0-based), as the index
/// of the selected slot.
pub open spec fn spec_best(pdos: Seq<Option<PDO>>, t: Target, n: int) -> Option<int>
    decreases n,
{
    if n <= 0 {
        None
    } else {
        let prev = spec_best(pdos, t, n - 1);
        if pdos[n - 1] is Some && compatible(pdos[n - 1]->0, t) && (prev is None || beats(
            pdos[n - 1]->0,
            pdos[prev->0]->0,
        )) {
            Some(n - 1)
        } else {
            prev
        }
    }
}

/// A selected slot is in range, holds an offer, and that offer is
/// compatible.
pub proof fn lemma_best_in_range(pdos: Seq<Option<PDO>>, t: Target, n: int)
    requires
        0 <= n <= pdos.len(),
    ensures
        spec_best(pdos, t, n) matches Some(j) ==> 0 <= j < n && pdos[j] is Some && compatible(
            pdos[j]->0,
            t,
        ),
    decreases n,
{
    if n > 0 {
        lemma_best_in_range(pdos, t, n - 1);
    }
}

/// The scan selects a slot exactly when some slot holds a compatible
/// offer.
pub proof fn lemma_best_some_iff(pdos: Seq<Option<PDO>>, t: Target, n: int)
    requires
        0 <= n <= pdos.len(),
    ensures
        spec_best(pdos, t, n) is Some <==> exists|k: int|
            0 <= k < n && pdos[k] is Some && compatible(pdos[k]->0, t),
    decreases n,
{
    if n > 0 {
        lemma_best_some_iff(pdos, t, n - 1);
        if spec_best(pdos, t, n) is Some {
            if spec_best(pdos, t, n - 1) is Some {
                let k = choose|k: int| 0 <= k < n - 1 && pdos[k] is Some && compatible(
                    pdos[k]->0,
                    t,
                );
                assert(0 <= k < n && pdos[k] is Some && compatible(pdos[k]->0, t));
            } else {
                assert(pdos[n - 1] is Some && compatible(pdos[n - 1]->0, t));
            }
        }
        if exists|k: int| 0 <= k < n && pdos[k] is Some && compatible(pdos[k]->0, t) {
            let k = choose|k: int| 0 <= k < n && pdos[k] is Some && compatible(pdos[k]->0, t);
            if k < n - 1 {
                assert(0 <= k < n - 1 && pdos[k] is Some && compatible(pdos[k]->0, t));
            }
            assert(spec_best(pdos, t, n) is Some);
        }
    }
}

/// A programmable offer always wins over fixed ones: if any slot holds a
/// compatible programmable offer, the slot the scan selects holds a
/// programmable offer — whatever currents the fixed offers advertise and
/// wherever the slots sit in the table.
pub proof fn lemma_best_prefers_programmable(pdos: Seq<Option<PDO>>, t: Target, n: int)
    requires
        0 <= n <= pdos.len(),
    ensures
        (exists|k: int|
            0 <= k < n && pdos[k] is Some && compatible(pdos[k]->0, t)
                && pdos[k]->0 is Programmable) ==> (spec_best(pdos, t, n) matches Some(j)
            && pdos[j]->0 is Programmable),
    decreases n,
{
    if n > 0 {
        lemma_best_prefers_programmable(pdos, t, n - 1);
        lemma_best_in_range(pdos, t, n - 1);
        if exists|k: int|
            0 <= k < n && pdos[k] is Some && compatible(pdos[k]->0, t)
                && pdos[k]->0 is Programmable {
            let k = choose|k: int|
                0 <= k < n && pdos[k] is Some && compatible(pdos[k]->0, t)
                    && pdos[k]->0 is Programmable;
            if k < n - 1 {
                assert(0 <= k < n - 1 && pdos[k] is Some && compatible(pdos[k]->0, t)
                    && pdos[k]->0 is Programmable);
            }
        }
    }
}

/// Higher current wins within a variant, and ties keep the earlier slot:
/// every compatible offer of the same variant as the selected one either
/// offers strictly less current, or offers the same and sits at or after
/// the selected slot.
pub proof fn lemma_best_max_current(pdos: Seq<Option<PDO>>, t: Target, n: int)
    requires
        0 <= n <= pdos.len(),
    ensures
        spec_best(pdos, t, n) matches Some(j) ==> forall|k: int|
            0 <= k < n && pdos[k] is Some && compatible(pdos[k]->0, t) && same_variant(
                pdos[k]->0,
                pdos[j]->0,
            ) ==> pdos[k]->0.spec_imax() < pdos[j]->0.spec_imax() || (pdos[k]->0.spec_imax()
                == pdos[j]->0.spec_imax() && j <= k),
    decreases n,
{
    if n > 0 {
        lemma_best_max_current(pdos, t, n - 1);
        lemma_best_in_range(pdos, t, n - 1);
        lemma_best_in_range(pdos, t, n);
        lemma_best_some_iff(pdos, t, n - 1);
        if spec_best(pdos, t, n) is Some {
            let j = spec_best(pdos, t, n)->0;
            let prev = spec_best(pdos, t, n - 1);
            if j == n - 1 && prev is Some && prev->0 != j {
                // The last slot replaced the previous best `b`.
                let b = prev->0;
                let p = pdos[j]->0;
                let q = pdos[b]->0;
                if p is Programmable && q is Fixed {
                    // A switch of variant: no compatible programmable
                    // offer can sit before the switch, else the previous
                    // best would already have been programmable.
                    lemma_best_prefers_programmable(pdos, t, n - 1);
                    assert forall|k: int|
                        0 <= k < n && pdos[k] is Some && compatible(pdos[k]->0, t) && same_variant(
                            pdos[k]->0,
                            p,
                        ) implies pdos[k]->0.spec_imax() < p.spec_imax() || (pdos[k]->0.spec_imax()
                        == p.spec_imax() && j <= k) by {
                        if k < n - 1 {
                            assert(0 <= k < n - 1 && pdos[k] is Some && compatible(pdos[k]->0, t)
                                && pdos[k]->0 is Programmable);
                            assert(false);
                        }
                    }
                } else {
                    // Same variant: the new offer strictly exceeds the
                    // previous best, which already dominated its variant.
                    assert(beats(p, q));
                }
            }
        }
    }
}

/// The requested voltage for a programmable offer: the target's nominal
/// voltage clamped to the target's own `[v_min, v_max]` envelope.
pub open spec fn spec_v_set(t: Target) -> u32 {
    let clipped = if t.v_nom < t.v_max {
        t.v_nom
    } else {
        t.v_max
    };
    if clipped > t.v_min {
        clipped
    } else {
        t.v_min
    }
}

/// The requested current: the target's nominal current, capped by what
/// the offer can supply (in milliamps).
pub open spec fn spec_i_set(p: PDO, t: Target) -> int {
    if t.i_nom < p.spec_imax() {
        t.i_nom as int
    } else {
        p.spec_imax()
    }
}

/// The request word for offer `p` at 1-based position `pos`: for a fixed
/// offer the requested current goes identically into the operating- and
/// maximum-operating-current fields (LSB 10 mA); for a programmable
/// offer the clamped voltage (LSB 20 mV) and the current (LSB 50 mA).
pub open spec fn spec_rdo_for(p: PDO, pos: u32, t: Target) -> RDO {
    match p {
        PDO::Fixed(_) => RDO::FixedRDO(
            FixedRDO(spec_fixed_rdo_word(pos, (spec_i_set(p, t) / 10) as u32)),
        ),
        PDO::Programmable(_) => RDO::ARDO(
            ARDO(spec_ardo_word(pos, spec_v_set(t) / 20, (spec_i_set(p, t) / 50) as u32)),
        ),
    }
}

/// What `select` returns: the 1-based position of the best slot and the
/// request built for it, or nothing when no slot is compatible.
pub open spec fn spec_select(pdos: Seq<Option<PDO>>, t: Target) -> Option<(u8, RDO)> {
    match spec_best(pdos, t, 7) {
        None => None,
        Some(j) => Some((((j + 1) as u8), spec_rdo_for(pdos[j]->0, (j + 1) as u32, t))),
    }
}

/// Selector priority, stated on the selection itself: whenever some slot
/// of the table holds a compatible programmable offer, the selection
/// lands on a programmable offer and the request is a programmable
/// request — however the offers are ordered in the table.
pub proof fn lemma_select_prefers_programmable(pdos: Seq<Option<PDO>>, t: Target)
    requires
        pdos.len() == 7,
    ensures
        (exists|k: int|
            0 <= k < 7 && pdos[k] is Some && compatible(pdos[k]->0, t)
                && pdos[k]->0 is Programmable) ==> (spec_select(pdos, t) matches Some((pos, rdo))
            && pdos[pos - 1]->0 is Programmable && rdo is ARDO),
{
    lemma_best_prefers_programmable(pdos, t, 7);
    lemma_best_in_range(pdos, t, 7);
}

/// Tie-break, stated on the selection itself: every compatible offer of
/// the same variant as the selected one offers strictly less current, or
/// the same current from a slot no earlier than the selected one.
pub proof fn lemma_select_max_current(pdos: Seq<Option<PDO>>, t: Target)
    requires
        pdos.len() == 7,
    ensures
        spec_select(pdos, t) matches Some((pos, rdo)) ==> forall|k: int|
            0 <= k < 7 && pdos[k] is Some && compatible(pdos[k]->0, t) && same_variant(
                pdos[k]->0,
                pdos[pos - 1]->0,
            ) ==> pdos[k]->0.spec_imax() < pdos[pos - 1]->0.spec_imax() || (pdos[k]->0.spec_imax()
                == pdos[pos - 1]->0.spec_imax() && pos - 1 <= k),
{
    lemma_best_max_current(pdos, t, 7);
    lemma_best_in_range(pdos, t, 7);
}

/// Whether `new` replaces the running best `cur`.
fn beats_check(new: PDO, cur: PDO) -> (r: bool)
    ensures
        r == beats(new, cur),
{
    match (new, cur) {
        (PDO::Programmable(_), PDO::Fixed(_)) => true,
        (PDO::Fixed(_), PDO::Programmable(_)) => false,
        _ => new.imax() > cur.imax(),
    }
}

/// Build the request word for offer `p` at 1-based position `pos`.
fn build_rdo(p: PDO, pos: u32, t: Target) -> (r: RDO)
    requires
        1 <= pos <= 7,
    ensures
        r == spec_rdo_for(p, pos, t),
{
    let im: u32 = p.imax();
    let i_set: u32 = if t.i_nom < im {
        t.i_nom
    } else {
        im
    };
    match p {
        PDO::Fixed(_) => {
            let mut frdo = FixedRDO(0);
            frdo.pos(pos);
            frdo.i(i_set / 10);
            frdo.imax(i_set / 10);
            proof {
                lemma_fixed_rdo_compose(pos, i_set / 10);
            }
            RDO::FixedRDO(frdo)
        },
        PDO::Programmable(_) => {
            let mut ardo = ARDO(0);
            ardo.pos(pos);
            let clipped: u32 = if t.v_nom < t.v_max {
                t.v_nom
            } else {
                t.v_max
            };
            let v_set: u32 = if clipped > t.v_min {
                clipped
            } else {
                t.v_min
            };
            ardo.volt(v_set / 20);
            ardo.i(i_set / 50);
            proof {
                lemma_ardo_compose(pos, v_set / 20, i_set / 50);
            }
            RDO::ARDO(ardo)
        },
    }
}

/// Scan the seven table slots in ascending position order and pick the
/// best compatible offer.
///
/// The result is determined by the table and the target alone. It is
/// `Some` exactly when some slot holds a compatible offer; the returned
/// position is then the 1-based index of the selected slot and the
/// request word is built for that offer.
pub fn select(pdos: &[Option<PDO>; 7], t: Target) -> (r: Option<(u8, RDO)>)
    ensures
        r == spec_select(pdos@, t),
        r is Some <==> exists|k: int|
            0 <= k < 7 && pdos@[k] is Some && compatible(pdos@[k]->0, t),
        r matches Some((pos, rdo)) ==> 1 <= pos <= 7 && pdos@[pos - 1] is Some && compatible(
            pdos@[pos - 1]->0,
            t,
        ) && rdo == spec_rdo_for(pdos@[pos - 1]->0, pos as u32, t),
{
    let mut best: Option<usize> = None;
    let mut idx: usize = 0;
    while idx < 7
        invariant
            idx <= 7,
            match best {
                None => spec_best(pdos@, t, idx as int) is None,
                Some(b) => b < idx && spec_best(pdos@, t, idx as int) == Some(b as int),
            },
        decreases 7 - idx,
    {
        proof {
            lemma_best_in_range(pdos@, t, idx as int);
        }
        if let Some(p) = pdos[idx] {
            if p.vcomp(t.v_min, t.v_max) && p.icomp(t.i_min) {
                let take: bool = match best {
                    None => true,
                    Some(b) => {
                        let q: PDO = pdos[b].unwrap();
                        beats_check(p, q)
                    },
                };
                if take {
                    best = Some(idx);
                }
            }
        }
        idx += 1;
    }
    proof {
        lemma_best_in_range(pdos@, t, 7);
        lemma_best_some_iff(pdos@, t, 7);
    }
    match best {
        None => None,
        Some(b) => {
            let p: PDO = pdos[b].unwrap();
            let pos: u32 = (b as u32) + 1;
            let rdo = build_rdo(p, pos, t);
            Some(((pos as u8), rdo))
        },
    }
}

} // verus!
