//! The core's own interrupt gate.
//!
//! One value per core stands for whether the core accepts interrupt
//! delivery at all. On real hardware the transitions are privileged
//! instructions fenced so that configuration writes before "enable" and
//! flag reads after "disable" cannot be reordered across the boundary;
//! the model keeps the resulting state.

use vstd::prelude::*;

verus! {

/// Whether this core accepts interrupt delivery.
pub struct CpuIrq {
    pub enabled: bool,
}

impl CpuIrq {
    /// At reset the core does not accept interrupts.
    pub fn new() -> (r: CpuIrq)
        ensures
            !r.enabled,
    {
        CpuIrq { enabled: false }
    }

    /// Accept interrupt delivery.
    pub fn enable_irq(&mut self)
        ensures
            final(self).enabled,
    {
        self.enabled = true;
    }

    /// Refuse interrupt delivery.
    pub fn disable_irq(&mut self)
        ensures
            !final(self).enabled,
    {
        self.enabled = false;
    }
}

} // verus!
