//! Lock-free handoff between the interrupt handler and the control loop.
//!
//! A single boolean flag, owned by the system state and shared by exactly
//! two parties: the data-ready interrupt handler sets it, and the control
//! loop atomically tests-and-clears it. There is no queue: any number of
//! interrupts between two consumptions coalesce into a single observed
//! "new data" event. That loss is a deliberate policy — only the freshest
//! sample matters — not a defect.

use vstd::prelude::*;

verus! {

/// The data-ready flag. The field is private so that the only operations
/// are the handler's set and the loop's test-and-clear.
pub struct Handoff {
    flag: bool,
}

/// The flag state after the data-ready handler has fired.
pub closed spec fn spec_notify(h: Handoff) -> Handoff {
    Handoff { flag: true }
}

/// The flag state and the observation after one test-and-clear.
pub closed spec fn spec_take(h: Handoff) -> (Handoff, bool) {
    (Handoff { flag: false }, h.flag)
}

impl Handoff {
    /// Whether a new sample has been signalled and not yet consumed.
    pub closed spec fn ready(&self) -> bool {
        self.flag
    }

    /// A fresh flag, cleared so that spurious pending state from before
    /// startup is discarded rather than observed.
    pub fn new() -> (h: Handoff)
        ensures
            !h.ready(),
    {
        Handoff { flag: false }
    }
}

/// The data-ready interrupt handler: its entire body is "set the flag".
#[allow(non_snake_case)]
pub fn PL_PS_04(h: &mut Handoff)
    ensures
        *final(h) == spec_notify(*old(h)),
        final(h).ready(),
{
    h.flag = true;
}

/// One test-and-clear poll of the flag: report whether new data was
/// signalled since the last poll, consuming the signal.
///
/// The control loop spins on this until it returns `true`; that spin is the
/// loop's only suspension point and lives with the caller, next to the
/// interrupt context that feeds the flag. However many times the handler
/// fired since the last poll, one poll observes one event.
pub fn wait_for_new_data(h: &mut Handoff) -> (got: bool)
    ensures
        *final(h) == spec_take(*old(h)).0,
        got == spec_take(*old(h)).1,
        got == old(h).ready(),
        !final(h).ready(),
{
    let got = h.flag;
    h.flag = false;
    got
}

/// Coalescing: if the data-ready handler fires twice before the next poll,
/// a single poll still observes exactly one event; the poll after it
/// observes nothing until the handler fires a third time, and then observes
/// exactly one event again. A history of two events is never synthesized
/// from two firings.
pub proof fn lemma_handoff_coalescing(h: Handoff)
    ensures
        ({
            let first = spec_take(spec_notify(spec_notify(h)));
            let second = spec_take(first.0);
            let third = spec_take(spec_notify(second.0));
            first.1 == true && second.1 == false && third.1 == true
        }),
{
}

} // verus!
