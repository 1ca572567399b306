//! The interrupt dispatch runtime.
//!
//! On interrupt entry the CPU interface is acknowledged, the returned
//! identifier is mapped to a registered handler or to the unrecoverable
//! fault path, and end-of-interrupt is signalled with the exact acknowledge
//! value — never a recomputed one, or the controller's priority stack
//! desynchronizes. Handler registration is static: in this deployment the
//! sample-ready line is the only identifier with a handler; every other
//! live identifier falls through to the fault path.

use vstd::prelude::*;

use crate::control::{mark_fatal, fatal_word};
use crate::cpu::CpuIrq;
use crate::gic::{ack_id, ICC};
use crate::gic::icc;
use crate::handoff::{spec_notify, Handoff, PL_PS_04};
use crate::types::ParamsMap;

verus! {

/// The exception kinds the runtime distinguishes.
#[allow(non_camel_case_types)]
#[derive(Clone, Copy, PartialEq, Eq, Structural, Debug)]
pub enum Exception {
    DefaultHandler,
    Undefined,
    SVC,
    PrefetchAbort,
    DataAbort,
    FIQ,
}

/// The named interrupt sources of this platform: sixteen software-generated
/// identifiers, two inter-core signals and eight peripheral lines.
#[allow(non_camel_case_types)]
#[derive(Clone, Copy, PartialEq, Eq, Structural, Debug)]
pub enum Interrupt {
    SG0,
    SG1,
    SG2,
    SG3,
    SG4,
    SG5,
    SG6,
    SG7,
    SG8,
    SG9,
    SG10,
    SG11,
    SG12,
    SG13,
    SG14,
    SG15,
    IPI_CH1,
    IPI_CH2,
    PL_PS_00,
    PL_PS_01,
    PL_PS_02,
    PL_PS_03,
    PL_PS_04,
    PL_PS_05,
    PL_PS_06,
    PL_PS_07,
}

/// Where an acknowledged identifier is dispatched.
#[derive(Clone, Copy, PartialEq, Eq, Structural, Debug)]
pub enum Dispatch {
    /// The reserved "no interrupt pending" identifier: no handler runs and
    /// no end-of-interrupt is owed.
    Spurious,
    /// A named source of this platform.
    Handler(Interrupt),
    /// An identifier outside the platform's table: unrecoverable.
    Unhandled,
}

/// The software-generated interrupt named by an identifier below 16
/// (the fixed 16-entry vector table).
pub open spec fn sg_of(ackintid: u16) -> Interrupt
    recommends
        ackintid < 16,
{
    if ackintid == 0 {
        Interrupt::SG0
    } else if ackintid == 1 {
        Interrupt::SG1
    } else if ackintid == 2 {
        Interrupt::SG2
    } else if ackintid == 3 {
        Interrupt::SG3
    } else if ackintid == 4 {
        Interrupt::SG4
    } else if ackintid == 5 {
        Interrupt::SG5
    } else if ackintid == 6 {
        Interrupt::SG6
    } else if ackintid == 7 {
        Interrupt::SG7
    } else if ackintid == 8 {
        Interrupt::SG8
    } else if ackintid == 9 {
        Interrupt::SG9
    } else if ackintid == 10 {
        Interrupt::SG10
    } else if ackintid == 11 {
        Interrupt::SG11
    } else if ackintid == 12 {
        Interrupt::SG12
    } else if ackintid == 13 {
        Interrupt::SG13
    } else if ackintid == 14 {
        Interrupt::SG14
    } else {
        Interrupt::SG15
    }
}

/// The dispatch decision for an acknowledged identifier: spurious for the
/// reserved value, the vector-table entry for software-generated
/// identifiers, the statically named handler for this platform's fixed
/// lines, and the fault path for everything else.
pub open spec fn dispatch_of(ackintid: u16) -> Dispatch {
    if ackintid == 1023 {
        Dispatch::Spurious
    } else if ackintid < 16 {
        Dispatch::Handler(sg_of(ackintid))
    } else if ackintid == 65 {
        Dispatch::Handler(Interrupt::IPI_CH1)
    } else if ackintid == 66 {
        Dispatch::Handler(Interrupt::IPI_CH2)
    } else if ackintid == 121 {
        Dispatch::Handler(Interrupt::PL_PS_00)
    } else if ackintid == 122 {
        Dispatch::Handler(Interrupt::PL_PS_01)
    } else if ackintid == 123 {
        Dispatch::Handler(Interrupt::PL_PS_02)
    } else if ackintid == 124 {
        Dispatch::Handler(Interrupt::PL_PS_03)
    } else if ackintid == 125 {
        Dispatch::Handler(Interrupt::PL_PS_04)
    } else if ackintid == 126 {
        Dispatch::Handler(Interrupt::PL_PS_05)
    } else if ackintid == 127 {
        Dispatch::Handler(Interrupt::PL_PS_06)
    } else if ackintid == 128 {
        Dispatch::Handler(Interrupt::PL_PS_07)
    } else {
        Dispatch::Unhandled
    }
}

/// Map an acknowledged identifier to its dispatch decision.
pub fn dispatch(ackintid: u16) -> (d: Dispatch)
    ensures
        d == dispatch_of(ackintid),
{
    if ackintid == 1023 {
        Dispatch::Spurious
    } else if ackintid < 16 {
        let sg = if ackintid == 0 {
            Interrupt::SG0
        } else if ackintid == 1 {
            Interrupt::SG1
        } else if ackintid == 2 {
            Interrupt::SG2
        } else if ackintid == 3 {
            Interrupt::SG3
        } else if ackintid == 4 {
            Interrupt::SG4
        } else if ackintid == 5 {
            Interrupt::SG5
        } else if ackintid == 6 {
            Interrupt::SG6
        } else if ackintid == 7 {
            Interrupt::SG7
        } else if ackintid == 8 {
            Interrupt::SG8
        } else if ackintid == 9 {
            Interrupt::SG9
        } else if ackintid == 10 {
            Interrupt::SG10
        } else if ackintid == 11 {
            Interrupt::SG11
        } else if ackintid == 12 {
            Interrupt::SG12
        } else if ackintid == 13 {
            Interrupt::SG13
        } else if ackintid == 14 {
            Interrupt::SG14
        } else {
            Interrupt::SG15
        };
        Dispatch::Handler(sg)
    } else if ackintid == 65 {
        Dispatch::Handler(Interrupt::IPI_CH1)
    } else if ackintid == 66 {
        Dispatch::Handler(Interrupt::IPI_CH2)
    } else if ackintid == 121 {
        Dispatch::Handler(Interrupt::PL_PS_00)
    } else if ackintid == 122 {
        Dispatch::Handler(Interrupt::PL_PS_01)
    } else if ackintid == 123 {
        Dispatch::Handler(Interrupt::PL_PS_02)
    } else if ackintid == 124 {
        Dispatch::Handler(Interrupt::PL_PS_03)
    } else if ackintid == 125 {
        Dispatch::Handler(Interrupt::PL_PS_04)
    } else if ackintid == 126 {
        Dispatch::Handler(Interrupt::PL_PS_05)
    } else if ackintid == 127 {
        Dispatch::Handler(Interrupt::PL_PS_06)
    } else if ackintid == 128 {
        Dispatch::Handler(Interrupt::PL_PS_07)
    } else {
        Dispatch::Unhandled
    }
}

/// Whether an acknowledged identifier is serviced by the one handler this
/// deployment registers: the sample-ready line.
pub open spec fn serviced(ackintid: u16) -> bool {
    dispatch_of(ackintid) == Dispatch::Handler(Interrupt::PL_PS_04)
}

/// Whether an acknowledged identifier takes the unrecoverable fault path:
/// everything that is neither spurious nor serviced by a registered
/// handler.
pub open spec fn fatal(ackintid: u16) -> bool {
    dispatch_of(ackintid) != Dispatch::Spurious && !serviced(ackintid)
}

/// One interrupt entry: acknowledge, dispatch, end-of-interrupt.
///
/// - The spurious identifier runs no handler and owes no end-of-interrupt;
///   nothing changes.
/// - The sample-ready line runs its handler (set the handoff flag), then
///   end-of-interrupt is signalled with the exact acknowledge value.
/// - Every other identifier is unrecoverable: the core's interrupt gate is
///   closed for good, the fatal bit is raised in status word 0 for the
///   external collaborator to observe, no end-of-interrupt is signalled,
///   and the caller must halt (the returned flag).
pub fn handle_irq(icc: &mut ICC, cpu: &mut CpuIrq, handoff: &mut Handoff, params: &mut ParamsMap)
    -> (halt: bool)
    requires
        old(params).wf(),
    ensures
        final(params).wf(),
        halt == fatal(ack_id(old(icc).regs@.iar)),
        ({
            let aid = ack_id(old(icc).regs@.iar);
            if serviced(aid) {
                *final(handoff) == spec_notify(*old(handoff))
                && final(icc).regs@ == (icc::RegsView { eoir: old(icc).regs@.iar, ..old(icc).regs@ })
                && *final(cpu) == *old(cpu)
                && final(params)@ == old(params)@
            } else if fatal(aid) {
                *final(handoff) == *old(handoff)
                && final(icc).regs@ == old(icc).regs@
                && !final(cpu).enabled
                && final(params)@ == old(params)@.update(0, fatal_word(old(params)@[0]))
            } else {
                *final(handoff) == *old(handoff)
                && final(icc).regs@ == old(icc).regs@
                && *final(cpu) == *old(cpu)
                && final(params)@ == old(params)@
            }
        }),
{
    let ack = icc.get_icciar();
    let aid = ack.ackintid();
    match dispatch(aid) {
        Dispatch::Spurious => false,
        Dispatch::Handler(Interrupt::PL_PS_04) => {
            PL_PS_04(handoff);
            icc.set_icceoir(ack);
            false
        },
        _ => {
            cpu.disable_irq();
            mark_fatal(params);
            true
        },
    }
}

} // verus!
