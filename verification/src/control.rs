//! The control loop's shared-memory protocol and actuator encoding.
//!
//! Parameter map, by word index (each word packs a low and a high 32-bit
//! half; float-valued halves are carried as bit patterns):
//!
//! | idx | dir   | low 32 bits                | high 32 bits               |
//! |-----|-------|----------------------------|----------------------------|
//! |  0  | write | nr of processed iterations | CPU cycle counter          |
//! |  1  | write | amp^2 (error signal)       | Z bias (control signal)    |
//! |  2  | read  | lockin amplitude scale     | (unused)                   |
//! |  3  | read  | feedback set point         | proportional gain          |
//! |  4  | read  | feedback integral gain     | derivative gain            |
//! |  5  | read  | scanner X bias             | scanner Y bias             |
//! |  6  | read  | Z bias low limit           | Z bias high limit          |
//!
//! The float arithmetic itself — rescaling, the squared amplitude, the PID
//! evaluation, the clamping of the limits into `[0, 1]` — lives with the
//! caller that interprets the bit patterns; this module fixes which bits go
//! where.

use vstd::prelude::*;

use crate::gic::{cfg_edge_mask, cfg_word, enable_mask, enable_word, ICC, ICD};
use crate::cpu::CpuIrq;
use crate::gic::icc;
use crate::types::{BiasDacMap, DataMap, ParamsMap};
use crate::words::{hi32, lo32, pack64, u32x2_to_u64, u64_to_u32x2};

verus! {

/// Identifier of the interrupt line that signals "new acquisition sample
/// ready"; it drives the handoff flag.
pub const SAMPLE_READY_IRQ: u16 = 125;

/// Identifier of the interrupt line whose pending status is polled as the
/// actuator's ready/busy flag; it never gets a registered handler.
pub const DAC_READY_IRQ: u16 = 122;

/// The core-mask the sample-ready line is routed to.
pub const SAMPLE_READY_ROUTE: u8 = 2;

/// The delivery threshold admitting every priority used here.
pub const LOWEST_PRIORITY_MASK: u32 = 248;

/// The priority configured for the sample-ready line.
pub const SAMPLE_READY_PRIORITY: u8 = 240;

/// Read the latest in-phase/quadrature sample pair from the data region as
/// two 32-bit float bit patterns. The caller has already waited on the
/// handoff flag; word 0 always holds the newest pair.
pub fn get_new_data(data: &DataMap) -> (r: (u32, u32))
    requires
        data.wf(),
    ensures
        r.0 == lo32(data@[0]),
        r.1 == hi32(data@[0]),
{
    u64_to_u32x2(data.read(0))
}

/// Read the lock-in amplitude scale factor (float bits, low half of
/// word 2).
pub fn read_scale(params: &ParamsMap) -> (scale: u32)
    requires
        params.wf(),
    ensures
        scale == lo32(params@[2]),
{
    let (scale, _unused) = u64_to_u32x2(params.read(2));
    scale
}

/// Read the live-tunable feedback parameters (float bits): set point,
/// proportional, integral and derivative gain, from words 3 and 4.
pub fn read_pid_params(params: &ParamsMap) -> (r: (u32, u32, u32, u32))
    requires
        params.wf(),
    ensures
        r.0 == lo32(params@[3]),
        r.1 == hi32(params@[3]),
        r.2 == lo32(params@[4]),
        r.3 == hi32(params@[4]),
{
    let (sp, kp) = u64_to_u32x2(params.read(3));
    let (ki, kd) = u64_to_u32x2(params.read(4));
    (sp, kp, ki, kd)
}

/// Read the normalized scanner X and Y bias values (float bits, word 5).
pub fn read_scanner_xy(params: &ParamsMap) -> (r: (u32, u32))
    requires
        params.wf(),
    ensures
        r.0 == lo32(params@[5]),
        r.1 == hi32(params@[5]),
{
    u64_to_u32x2(params.read(5))
}

/// Read the output limits for the normalized Z bias (float bits, word 6).
/// The defensive clamp of both limits into `[0, 1]` interprets the floats
/// and so lives with the caller, on every read.
pub fn read_z_limits(params: &ParamsMap) -> (r: (u32, u32))
    requires
        params.wf(),
    ensures
        r.0 == lo32(params@[6]),
        r.1 == hi32(params@[6]),
{
    u64_to_u32x2(params.read(6))
}

/// Publish the number of processed iterations together with a cycle-counter
/// sample into word 0, so the collaborator can compute a rate. No other
/// word changes.
pub fn write_irq_count(params: &mut ParamsMap, count: u32, cycles: u32)
    requires
        old(params).wf(),
    ensures
        final(params).wf(),
        final(params)@ == old(params)@.update(0, pack64(count, cycles)),
{
    let val = u32x2_to_u64(count, cycles);
    params.write(0, val);
}

/// Publish the error signal (squared amplitude) and the control signal
/// (Z bias), both as float bit patterns, into word 1. No other word
/// changes.
pub fn write_pid_error_control(params: &mut ParamsMap, error_bits: u32, control_bits: u32)
    requires
        old(params).wf(),
    ensures
        final(params).wf(),
        final(params)@ == old(params)@.update(1, pack64(error_bits, control_bits)),
{
    let val = u32x2_to_u64(error_bits, control_bits);
    params.write(1, val);
}

/// The status word with the fatal bit raised: bit 63 set, every other bit
/// kept.
pub open spec fn fatal_word(w: u64) -> u64 {
    w | 0x8000_0000_0000_0000
}

/// Flag an unrecoverable fault: set the top bit of status word 0 so the
/// external collaborator can observe the halt. Every other bit of word 0
/// and every other word keep their last published values; the caller stops
/// issuing writes afterwards.
pub fn mark_fatal(params: &mut ParamsMap)
    requires
        old(params).wf(),
    ensures
        final(params).wf(),
        final(params)@ == old(params)@.update(0, fatal_word(old(params)@[0])),
{
    let val = params.read(0);
    params.write(0, val | 0x8000_0000_0000_0000);
}

/// Whether shared peripheral line `irq_nr` currently reads high in the
/// implementation-defined status words `idr`: one bit per line, counted
/// from identifier 32, offset by one word into the block.
pub open spec fn line_status(idr: Seq<u32>, irq_nr: u16) -> bool
    recommends
        idr.len() == 64,
        32 <= irq_nr < 1024,
{
    idr[(irq_nr - 32) as int / 32 + 1] & (1u32 << (((irq_nr - 32) % 32) as u32)) != 0
}

/// Poll the pending status of shared peripheral line `irq_nr` directly
/// from the distributor's status words; used as the actuator's ready/busy
/// flag instead of a handler.
pub fn irq_status(icd: &ICD, irq_nr: u16) -> (high: bool)
    requires
        icd.wf(),
        32 <= irq_nr < 1024,
    ensures
        high == line_status(icd.regs@.idr, irq_nr),
{
    let spi_nr: usize = (irq_nr as usize) - 32;
    let reg_nr: usize = spi_nr / 32;
    let bit_nr: usize = spi_nr % 32;
    let idx: usize = reg_nr + 1;
    let mask: u32 = 1u32 << (bit_nr as u32);
    let reg: u32 = icd.regs.ICDIDR[idx];
    (reg & mask) > 0
}

/// The actuator command word: the opcode nibble "write code to and update
/// channel", the channel number above the code field, and the 16-bit
/// scaled code.
pub open spec fn dac_command(channel: u64, code: u16) -> u64 {
    0x40_0000u64 | (channel << 16) | (code as u64)
}

/// Send the command that sets DC bias channel `channel` to the 16-bit
/// code `bias_code` (a normalized float scaled by 65535 by the caller).
/// The handshake around the write — waiting for the ready line to go high
/// before and low after — polls hardware and lives with the caller, using
/// [`irq_status`] on [`DAC_READY_IRQ`].
pub fn set_dc_bias(bias_dac: &mut BiasDacMap, channel: u64, bias_code: u16)
    requires
        channel < 8,
    ensures
        final(bias_dac)@ == dac_command(channel, bias_code),
{
    let mut word: u64 = 0x40_0000;
    word |= channel << 16;
    word |= bias_code as u64;
    bias_dac.write(word);
}

/// One-time interrupt configuration before the loop starts: routing and
/// signaling off; the sample-ready line unmasked, the actuator-ready line
/// masked (it is polled, never handled); the sample-ready line routed to
/// its core and made edge-triggered, the actuator-ready line
/// level-triggered; the delivery threshold admitting all priorities and
/// the sample-ready priority set; then signaling, routing and the core's
/// own gate re-enabled.
pub fn configure_interrupts(icd: &mut ICD, icc: &mut ICC, cpu: &mut CpuIrq)
    requires
        old(icd).wf(),
    ensures
        final(icd).wf(),
        final(icd).regs@.dcr == 1,
        final(icd).regs@.iser == old(icd).regs@.iser.update(
            enable_word(SAMPLE_READY_IRQ),
            (old(icd).regs@.iser[enable_word(SAMPLE_READY_IRQ)] | enable_mask(SAMPLE_READY_IRQ))
                & !enable_mask(DAC_READY_IRQ),
        ),
        final(icd).regs@.iptr == old(icd).regs@.iptr.update(
            SAMPLE_READY_IRQ as int - 32,
            SAMPLE_READY_ROUTE,
        ),
        final(icd).regs@.icfr == old(icd).regs@.icfr.update(
            cfg_word(SAMPLE_READY_IRQ),
            (old(icd).regs@.icfr[cfg_word(SAMPLE_READY_IRQ)] | cfg_edge_mask(SAMPLE_READY_IRQ))
                & !cfg_edge_mask(DAC_READY_IRQ),
        ),
        final(icd).regs@.ipr == old(icd).regs@.ipr.update(
            SAMPLE_READY_IRQ as int,
            SAMPLE_READY_PRIORITY,
        ),
        final(icd).regs@.ispr == old(icd).regs@.ispr,
        final(icd).regs@.idr == old(icd).regs@.idr,
        final(icd).regs@.sgir == old(icd).regs@.sgir,
        final(icc).regs@ == (icc::RegsView {
            icr: 3,
            pmr: LOWEST_PRIORITY_MASK,
            ..old(icc).regs@
        }),
        final(cpu).enabled,
{
    // routing and signaling off while configuring
    icd.disable();
    icc.disable();

    icd.unmask(SAMPLE_READY_IRQ);
    icd.mask(DAC_READY_IRQ);

    icd.route(SAMPLE_READY_IRQ, SAMPLE_READY_ROUTE);

    icd.set_sensitivity(SAMPLE_READY_IRQ, true);
    icd.set_sensitivity(DAC_READY_IRQ, false);

    icc.set_priority_mask(LOWEST_PRIORITY_MASK);
    icd.set_priority(SAMPLE_READY_IRQ, SAMPLE_READY_PRIORITY);

    icc.enable();
    icd.enable();
    cpu.enable_irq();

    proof {
        assert(icd.regs@.iser =~= old(icd).regs@.iser.update(
            enable_word(SAMPLE_READY_IRQ),
            (old(icd).regs@.iser[enable_word(SAMPLE_READY_IRQ)] | enable_mask(SAMPLE_READY_IRQ))
                & !enable_mask(DAC_READY_IRQ),
        ));
        assert(icd.regs@.icfr =~= old(icd).regs@.icfr.update(
            cfg_word(SAMPLE_READY_IRQ),
            (old(icd).regs@.icfr[cfg_word(SAMPLE_READY_IRQ)] | cfg_edge_mask(SAMPLE_READY_IRQ))
                & !cfg_edge_mask(DAC_READY_IRQ),
        ));
    }
}

} // verus!
