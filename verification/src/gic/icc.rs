//! Model of the per-core CPU-interface register block.
//!
//! The CPU interface is the per-core side of the interrupt controller: it
//! masks delivery by priority, hands out the acknowledge value of the
//! highest-priority pending interrupt, and takes that value back at
//! end-of-interrupt. The model keeps each register the driver touches as an
//! owned plain value; only those registers are modelled.

use vstd::prelude::*;

verus! {

/// CPU-interface registers touched by the driver.
#[allow(non_snake_case)]
pub struct Registers {
    /// Interface control register: bits 0 and 1 enable signaling.
    pub ICCICR: u32,
    /// Priority mask: interrupts at or below this threshold are withheld.
    pub ICCPMR: u32,
    /// Acknowledge register: the value the controller presents for the
    /// highest-priority pending-and-enabled interrupt (read-only on the
    /// device; the hardware side of the model loads it).
    pub ICCIAR: u32,
    /// End-of-interrupt register (write-only on the device; the model keeps
    /// the last written value).
    pub ICCEOIR: u32,
}

/// Mathematical view of the CPU-interface state.
pub struct RegsView {
    pub icr: u32,
    pub pmr: u32,
    pub iar: u32,
    pub eoir: u32,
}

impl View for Registers {
    type V = RegsView;

    open spec fn view(&self) -> RegsView {
        RegsView { icr: self.ICCICR, pmr: self.ICCPMR, iar: self.ICCIAR, eoir: self.ICCEOIR }
    }
}

/// The acknowledge value the controller returns when no interrupt is pending.
pub const SPURIOUS_ID: u32 = 1023;

impl Registers {
    /// A freshly created block: signaling off, no interrupt pending.
    pub fn new() -> (r: Registers)
        ensures
            r@ == (RegsView { icr: 0, pmr: 0, iar: SPURIOUS_ID, eoir: 0 }),
    {
        Registers { ICCICR: 0, ICCPMR: 0, ICCIAR: SPURIOUS_ID, ICCEOIR: 0 }
    }
}

} // verus!
