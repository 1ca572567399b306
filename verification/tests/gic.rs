use feedback_core::gic::{Target, ICC, ICD, ICCIAR};

#[test]
fn priority_table_round_trip() {
    let mut icd = ICD::new();
    icd.set_priority(125, 240);
    assert_eq!(icd.get_priority(125), 240);
    icd.set_priority(0, 0);
    assert_eq!(icd.get_priority(0), 0);
    icd.set_priority(1019, 255);
    assert_eq!(icd.get_priority(1019), 255);
    // neighbouring entries keep their values
    assert_eq!(icd.get_priority(124), 0);
    assert_eq!(icd.get_priority(126), 0);
}

#[test]
fn unmask_sets_one_enable_bit() {
    let mut icd = ICD::new();
    icd.unmask(125);
    assert_eq!(icd.regs.ICDISER[3], 1 << 29);
    icd.unmask(37);
    assert_eq!(icd.regs.ICDISER[1], 1 << 5);
    assert_eq!(icd.regs.ICDISER[0], 0);
}

#[test]
fn unmask_then_mask_restores_bitmap() {
    let mut icd = ICD::new();
    icd.unmask(42);
    let before: Vec<u32> = icd.regs.ICDISER.clone();
    icd.unmask(125);
    icd.mask(125);
    assert_eq!(icd.regs.ICDISER, before);
}

#[test]
fn mask_clears_only_its_bit() {
    let mut icd = ICD::new();
    icd.unmask(64);
    icd.unmask(65);
    icd.mask(64);
    assert_eq!(icd.regs.ICDISER[2], 1 << 1);
}

#[test]
fn sensitivity_sets_high_bit_of_pair() {
    let mut icd = ICD::new();
    icd.set_sensitivity(125, true);
    // identifier 125: word 7, pair bits 26/27
    assert_eq!(icd.regs.ICDICFR[7], 1 << 27);
    icd.set_sensitivity(122, false);
    assert_eq!(icd.regs.ICDICFR[7], 1 << 27);
    icd.set_sensitivity(122, true);
    assert_eq!(icd.regs.ICDICFR[7], (1 << 27) | (1 << 21));
    icd.set_sensitivity(125, false);
    assert_eq!(icd.regs.ICDICFR[7], 1 << 21);
}

#[test]
fn pend_sets_pending_bit() {
    let mut icd = ICD::new();
    icd.pend(33);
    assert_eq!(icd.regs.ICDISPR[1], 1 << 1);
    icd.pend(34);
    assert_eq!(icd.regs.ICDISPR[1], (1 << 1) | (1 << 2));
}

#[test]
fn sgir_encodings() {
    let mut icd = ICD::new();
    icd.icdsgir(Target::Loopback, 5);
    assert_eq!(icd.regs.ICDSGIR, (0b10 << 24) | 5);
    icd.icdsgir(Target::Broadcast, 3);
    assert_eq!(icd.regs.ICDSGIR, (0b01 << 24) | 3);
    icd.icdsgir(Target::Unicast(2), 15);
    assert_eq!(icd.regs.ICDSGIR, (1 << 2) << 16 | 15);
    // only the low four bits of the identifier are encoded
    icd.icdsgir(Target::Loopback, 0x1f);
    assert_eq!(icd.regs.ICDSGIR, (0b10 << 24) | 0xf);
}

#[test]
fn distributor_enable_disable() {
    let mut icd = ICD::new();
    assert_eq!(icd.regs.ICDDCR, 0);
    icd.enable();
    assert_eq!(icd.regs.ICDDCR, 1);
    icd.disable();
    assert_eq!(icd.regs.ICDDCR, 0);
}

#[test]
fn route_writes_core_mask_byte() {
    let mut icd = ICD::new();
    icd.route(125, 2);
    assert_eq!(icd.regs.ICDIPTR_rw[93], 2);
    assert_eq!(icd.regs.ICDIPTR_rw[92], 0);
}

#[test]
fn icciar_field_extraction() {
    let v = ICCIAR { bits: (3 << 10) | 125 };
    assert_eq!(v.bits(), 0xc7d);
    assert_eq!(v.ackintid(), 125);
    assert_eq!(v.cpuid(), 3);
    let spurious = ICCIAR { bits: 1023 };
    assert_eq!(spurious.ackintid(), 1023);
    assert_eq!(spurious.cpuid(), 0);
}

#[test]
fn cpu_interface_registers() {
    let mut icc = ICC::new();
    assert_eq!(icc.regs.ICCIAR, 1023);
    icc.enable();
    assert_eq!(icc.regs.ICCICR, 3);
    icc.set_priority_mask(248);
    assert_eq!(icc.get_iccpmr(), 248);
    icc.set_priority_mask(0x1ff);
    assert_eq!(icc.get_iccpmr(), 0xff);
    icc.disable();
    assert_eq!(icc.regs.ICCICR, 0);
    icc.set_iccicr(7);
    assert_eq!(icc.regs.ICCICR, 7);
    let ack = ICCIAR { bits: 0xc7d };
    icc.set_icceoir(ack);
    assert_eq!(icc.regs.ICCEOIR, 0xc7d);
}
