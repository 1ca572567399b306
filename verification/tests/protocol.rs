use feedback_core::control::{
    configure_interrupts, get_new_data, irq_status, mark_fatal, read_pid_params, read_scale,
    read_scanner_xy, read_z_limits, set_dc_bias, write_irq_count, write_pid_error_control,
};
use feedback_core::cpu::CpuIrq;
use feedback_core::gic::{ICC, ICD};
use feedback_core::handoff::{wait_for_new_data, Handoff, PL_PS_04};
use feedback_core::types::{BiasDacMap, DataMap, ParamsMap};
use feedback_core::words::{u32x2_to_u64, u64_to_u32x2};

#[test]
fn word_packing_round_trip() {
    assert_eq!(u32x2_to_u64(7, 9), (9u64 << 32) | 7);
    assert_eq!(u64_to_u32x2((9u64 << 32) | 7), (7, 9));
    assert_eq!(u64_to_u32x2(u32x2_to_u64(0xffff_ffff, 0)), (0xffff_ffff, 0));
    assert_eq!(u64_to_u32x2(u32x2_to_u64(0, 0xffff_ffff)), (0, 0xffff_ffff));
}

#[test]
fn status_words_publish_low_and_high_halves() {
    let mut params = ParamsMap::new();
    write_irq_count(&mut params, 3, 500_000_000);
    assert_eq!(params.read(0), (500_000_000u64 << 32) | 3);
    write_pid_error_control(&mut params, 0x3d23_d70a, 0x3e2e_147b);
    assert_eq!(params.read(1), (0x3e2e_147bu64 << 32) | 0x3d23_d70a);
    // the two status words do not disturb each other
    assert_eq!(params.read(0), (500_000_000u64 << 32) | 3);
}

#[test]
fn configuration_words_read_by_half() {
    let mut params = ParamsMap::new();
    params.write(2, u32x2_to_u64(2.0f32.to_bits(), 0));
    params.write(3, u32x2_to_u64(0.25f32.to_bits(), 1.0f32.to_bits()));
    params.write(4, u32x2_to_u64(0.5f32.to_bits(), 0.125f32.to_bits()));
    params.write(5, u32x2_to_u64(0.3f32.to_bits(), 0.7f32.to_bits()));
    params.write(6, u32x2_to_u64(0.1f32.to_bits(), 0.9f32.to_bits()));

    assert_eq!(f32::from_bits(read_scale(&params)), 2.0);
    let (sp, kp, ki, kd) = read_pid_params(&params);
    assert_eq!(f32::from_bits(sp), 0.25);
    assert_eq!(f32::from_bits(kp), 1.0);
    assert_eq!(f32::from_bits(ki), 0.5);
    assert_eq!(f32::from_bits(kd), 0.125);
    let (x, y) = read_scanner_xy(&params);
    assert_eq!(f32::from_bits(x), 0.3);
    assert_eq!(f32::from_bits(y), 0.7);
    let (lo, hi) = read_z_limits(&params);
    assert_eq!(f32::from_bits(lo), 0.1);
    assert_eq!(f32::from_bits(hi), 0.9);
}

#[test]
fn fatal_bit_keeps_every_other_bit() {
    let mut params = ParamsMap::new();
    write_irq_count(&mut params, 0xdead_beef, 0x0123_4567);
    write_pid_error_control(&mut params, 1, 2);
    params.write(5, 77);
    mark_fatal(&mut params);
    assert_eq!(params.read(0), (1u64 << 63) | (0x0123_4567u64 << 32) | 0xdead_beef);
    assert_eq!(params.read(1), (2u64 << 32) | 1);
    assert_eq!(params.read(5), 77);
    // flagging twice is idempotent
    mark_fatal(&mut params);
    assert_eq!(params.read(0), (1u64 << 63) | (0x0123_4567u64 << 32) | 0xdead_beef);
}

#[test]
fn latest_sample_unpacks_quadratures() {
    let mut data = DataMap::new();
    data.hw_store(0, u32x2_to_u64(0.1f32.to_bits(), (-0.2f32).to_bits()));
    let (i_bits, q_bits) = get_new_data(&data);
    assert_eq!(f32::from_bits(i_bits), 0.1);
    assert_eq!(f32::from_bits(q_bits), -0.2);
}

#[test]
fn dac_ready_line_polling() {
    let mut icd = ICD::new();
    // line 122: status word 2 of the block, offset by one -> index 3, bit 26
    assert!(!irq_status(&icd, 122));
    icd.hw_set_idr(3, 1 << 26);
    assert!(irq_status(&icd, 122));
    icd.hw_set_idr(3, !(1 << 26));
    assert!(!irq_status(&icd, 122));
}

#[test]
fn actuator_encoding_full_scale() {
    let mut dac = BiasDacMap::new();
    let bias: f32 = 1.0;
    let code = (bias * u16::MAX as f32) as u16;
    assert_eq!(code, 0xffff);
    set_dc_bias(&mut dac, 1, code);
    assert_eq!(dac.read(), 0x40_0000 | 0x1_0000 | 0xffff);
}

#[test]
fn actuator_encoding_channels() {
    let mut dac = BiasDacMap::new();
    set_dc_bias(&mut dac, 0, 0);
    assert_eq!(dac.read(), 0x40_0000);
    set_dc_bias(&mut dac, 2, 0x8000);
    assert_eq!(dac.read(), 0x40_0000 | 0x2_0000 | 0x8000);
}

#[test]
fn startup_configuration() {
    let mut icd = ICD::new();
    let mut icc = ICC::new();
    let mut cpu = CpuIrq::new();
    configure_interrupts(&mut icd, &mut icc, &mut cpu);

    assert_eq!(icd.regs.ICDDCR, 1);
    assert_eq!(icc.regs.ICCICR, 3);
    assert_eq!(icc.regs.ICCPMR, 248);
    // sample-ready (125) unmasked, actuator-ready (122) masked
    assert_eq!(icd.regs.ICDISER[3], 1 << 29);
    // sample-ready routed to core mask 2
    assert_eq!(icd.regs.ICDIPTR_rw[93], 2);
    // sample-ready edge-triggered, actuator-ready level-triggered
    assert_eq!(icd.regs.ICDICFR[7], 1 << 27);
    // sample-ready priority: second lowest
    assert_eq!(icd.regs.ICDIPR[125], 240);
    assert!(cpu.enabled);
}

#[test]
fn end_to_end_iteration() {
    // scale 2.0, set point 0.25, kp 1, ki 0, kd 0, output clamp [0, 1];
    // sample I = Q = 0.1 rescales to 0.2, amp^2 = 0.08, error 0.17,
    // output 0.17; word 1 ends with the two float bit patterns.
    let mut params = ParamsMap::new();
    params.write(2, u32x2_to_u64(2.0f32.to_bits(), 0));
    params.write(3, u32x2_to_u64(0.25f32.to_bits(), 1.0f32.to_bits()));
    params.write(4, 0);
    params.write(6, u32x2_to_u64(0.0f32.to_bits(), 1.0f32.to_bits()));
    let mut data = DataMap::new();
    data.hw_store(0, u32x2_to_u64(0.1f32.to_bits(), 0.1f32.to_bits()));
    let mut h = Handoff::new();

    // a sample arrives
    PL_PS_04(&mut h);
    assert!(wait_for_new_data(&mut h));
    let (i_bits, q_bits) = get_new_data(&data);

    // the float stages of the loop body
    let scale = f32::from_bits(read_scale(&params));
    let data_i = f32::from_bits(i_bits) * scale;
    let data_q = f32::from_bits(q_bits) * scale;
    let amp2 = data_i * data_i + data_q * data_q;
    assert!((amp2 - 0.08).abs() < 1e-6);
    let (sp, kp, ki, kd) = read_pid_params(&params);
    let (sp, kp, ki, kd) = (
        f32::from_bits(sp),
        f32::from_bits(kp),
        f32::from_bits(ki),
        f32::from_bits(kd),
    );
    assert_eq!((ki, kd), (0.0, 0.0));
    let error = sp - amp2;
    let output = (kp * error).clamp(0.0, 1.0);
    assert!((output - 0.17).abs() < 1e-6);

    // publication through the verified protocol
    write_pid_error_control(&mut params, amp2.to_bits(), output.to_bits());
    assert_eq!(
        params.read(1),
        ((output.to_bits() as u64) << 32) | amp2.to_bits() as u64
    );
    write_irq_count(&mut params, 1, 42);
    assert_eq!(params.read(0), (42u64 << 32) | 1);

    // no further sample: the loop would block
    assert!(!wait_for_new_data(&mut h));
}
