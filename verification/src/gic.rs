//! Driver for the two-level interrupt controller.
//!
//! [`ICD`] owns the shared distributor block and [`ICC`] the per-core CPU
//! interface. Each physical device is owned by exactly one value, obtained
//! once at startup and never duplicated, so no second aliasing path to a
//! register range exists. All mutation is plain register read-modify-write;
//! the driver carries no locking because it is used either before interrupt
//! signaling is enabled (configuration phase) or from a single interrupt
//! context (acknowledge and end-of-interrupt).

pub mod icc;
pub mod icd;

use vstd::prelude::*;

verus! {

/// The enable/pending bitmap word that holds identifier `n`.
pub open spec fn enable_word(n: u16) -> int {
    n as int / 32
}

/// The bit of its bitmap word that stands for identifier `n`.
pub open spec fn enable_mask(n: u16) -> u32 {
    1u32 << ((n % 32) as u32)
}

/// The sensitivity-configuration word that holds identifier `n`
/// (two bits per identifier, sixteen identifiers per word).
pub open spec fn cfg_word(n: u16) -> int {
    n as int / 16
}

/// The high bit of identifier `n`'s two-bit sensitivity field; set for
/// edge triggering, clear for level triggering.
pub open spec fn cfg_edge_mask(n: u16) -> u32 {
    1u32 << (((n % 16) * 2 + 1) as u32)
}

/// The software-generated-interrupt request word for `target` and `id`:
/// a two-bit filter field, a core bitmask for unicast requests, and the
/// four-bit software-interrupt identifier.
pub open spec fn sgir_word(target: Target, id: u8) -> u32 {
    match target {
        Target::Loopback => (0b10u32 << 24) | ((id & 0b1111) as u32),
        Target::Broadcast => (0b01u32 << 24) | ((id & 0b1111) as u32),
        Target::Unicast(cpu) => ((1u32 << ((cpu & 0b111) as u32)) << 16) | ((id & 0b1111) as u32),
    }
}

/// Destination of a software-generated interrupt.
#[derive(Clone, Copy, PartialEq, Eq, Structural)]
pub enum Target {
    /// Every core except the requesting one.
    Broadcast,
    /// The requesting core itself.
    Loopback,
    /// The single core given by number.
    Unicast(u8),
}

/// The distributor: the shared part of the interrupt controller, holding
/// per-identifier enable, pending, priority, routing and sensitivity state.
pub struct ICD {
    pub regs: icd::Registers,
}

impl ICD {
    pub open spec fn wf(&self) -> bool {
        self.regs.wf()
    }

    /// Take ownership of the distributor, in reset state.
    pub fn new() -> (r: ICD)
        ensures
            r.wf(),
            r.regs.is_reset(),
    {
        ICD { regs: icd::Registers::new() }
    }

    /// Turn interrupt routing off.
    pub fn disable(&mut self)
        requires
            old(self).wf(),
        ensures
            final(self).wf(),
            final(self).regs@ == (icd::RegsView { dcr: 0, ..old(self).regs@ }),
    {
        self.regs.ICDDCR = 0;
    }

    /// Turn interrupt routing on.
    pub fn enable(&mut self)
        requires
            old(self).wf(),
        ensures
            final(self).wf(),
            final(self).regs@ == (icd::RegsView { dcr: 1, ..old(self).regs@ }),
    {
        self.regs.ICDDCR = 1;
    }

    /// Set the enable bit of identifier `n`: bit `n % 32` of bitmap word
    /// `n / 32`, read-modify-written; every other bit keeps its value.
    pub fn unmask(&mut self, n: u16)
        requires
            old(self).wf(),
            n < 1024,
        ensures
            final(self).wf(),
            final(self).regs@ == (icd::RegsView {
                iser: old(self).regs@.iser.update(
                    enable_word(n),
                    old(self).regs@.iser[enable_word(n)] | enable_mask(n),
                ),
                ..old(self).regs@
            }),
    {
        let w: usize = (n / 32) as usize;
        let val: u32 = self.regs.ICDISER[w] | (1u32 << ((n % 32) as u32));
        self.regs.ICDISER.set(w, val);
    }

    /// Clear the enable bit of identifier `n`; every other bit keeps its
    /// value.
    pub fn mask(&mut self, n: u16)
        requires
            old(self).wf(),
            n < 1024,
        ensures
            final(self).wf(),
            final(self).regs@ == (icd::RegsView {
                iser: old(self).regs@.iser.update(
                    enable_word(n),
                    old(self).regs@.iser[enable_word(n)] & !enable_mask(n),
                ),
                ..old(self).regs@
            }),
    {
        let w: usize = (n / 32) as usize;
        let val: u32 = self.regs.ICDISER[w] & !(1u32 << ((n % 32) as u32));
        self.regs.ICDISER.set(w, val);
    }

    /// Route shared peripheral identifier `n` to the cores of mask `core`.
    /// The first 32 identifiers are core-local and unroutable, so the
    /// routing table starts at identifier 32.
    pub fn route(&mut self, n: u16, core: u8)
        requires
            old(self).wf(),
            32 <= n < 1020,
        ensures
            final(self).wf(),
            final(self).regs@ == (icd::RegsView {
                iptr: old(self).regs@.iptr.update(n as int - 32, core),
                ..old(self).regs@
            }),
    {
        let i: usize = (n as usize) - 32;
        self.regs.ICDIPTR_rw.set(i, core);
    }

    /// Configure identifier `n` as edge-triggered (`edge`) or
    /// level-triggered (`!edge`) by read-modify-writing the high bit of its
    /// two-bit sensitivity field.
    pub fn set_sensitivity(&mut self, n: u16, edge: bool)
        requires
            old(self).wf(),
            n < 1024,
        ensures
            final(self).wf(),
            final(self).regs@ == (icd::RegsView {
                icfr: old(self).regs@.icfr.update(
                    cfg_word(n),
                    if edge {
                        old(self).regs@.icfr[cfg_word(n)] | cfg_edge_mask(n)
                    } else {
                        old(self).regs@.icfr[cfg_word(n)] & !cfg_edge_mask(n)
                    },
                ),
                ..old(self).regs@
            }),
    {
        let idx: usize = (n / 16) as usize;
        let bit: u32 = ((n % 16) as u32) * 2 + 1;
        let cur: u32 = self.regs.ICDICFR[idx];
        let val: u32 = if edge {
            cur | (1u32 << bit)
        } else {
            cur & !(1u32 << bit)
        };
        self.regs.ICDICFR.set(idx, val);
    }

    /// Force identifier `n` into the pending state. The device register is
    /// write-one-to-set: the single written bit joins the pending bitmap and
    /// every other bit keeps its value.
    pub fn pend(&mut self, n: u16)
        requires
            old(self).wf(),
            n < 1024,
        ensures
            final(self).wf(),
            final(self).regs@ == (icd::RegsView {
                ispr: old(self).regs@.ispr.update(
                    enable_word(n),
                    old(self).regs@.ispr[enable_word(n)] | enable_mask(n),
                ),
                ..old(self).regs@
            }),
    {
        let w: usize = (n / 32) as usize;
        let val: u32 = self.regs.ICDISPR[w] | (1u32 << ((n % 32) as u32));
        self.regs.ICDISPR.set(w, val);
    }

    /// Request a software-generated interrupt: encode the target filter,
    /// the core list and the four-bit identifier into one register write.
    pub fn icdsgir(&mut self, target: Target, id: u8)
        requires
            old(self).wf(),
        ensures
            final(self).wf(),
            final(self).regs@ == (icd::RegsView { sgir: sgir_word(target, id), ..old(self).regs@ }),
    {
        let sgiintid: u32 = (id & 0b1111) as u32;
        let word: u32 = match target {
            Target::Loopback => (0b10u32 << 24) | sgiintid,
            Target::Broadcast => (0b01u32 << 24) | sgiintid,
            Target::Unicast(cpu) => {
                proof {
                    assert((cpu & 0b111) < 8) by (bit_vector);
                }
                let cpulist: u32 = 1u32 << ((cpu & 0b111) as u32);
                (cpulist << 16) | sgiintid
            },
        };
        self.regs.ICDSGIR = word;
    }

    /// Write identifier `i`'s priority byte directly into the priority
    /// table; lower values are more urgent. Priority changes take effect
    /// reliably only while the identifier is disabled or before signaling
    /// is enabled.
    pub fn set_priority(&mut self, i: u16, priority: u8)
        requires
            old(self).wf(),
            i < 1020,
        ensures
            final(self).wf(),
            final(self).regs@ == (icd::RegsView {
                ipr: old(self).regs@.ipr.update(i as int, priority),
                ..old(self).regs@
            }),
    {
        self.regs.ICDIPR.set(i as usize, priority);
    }

    /// Read identifier `i`'s byte of the priority table.
    pub fn get_priority(&self, i: u16) -> (p: u8)
        requires
            self.wf(),
            i < 1020,
        ensures
            p == self.regs@.ipr[i as int],
    {
        self.regs.ICDIPR[i as usize]
    }

    /// Hardware side of the model: the platform drives one of the
    /// implementation-defined status words (peripheral line levels).
    pub fn hw_set_idr(&mut self, idx: usize, val: u32)
        requires
            old(self).wf(),
            idx < 64,
        ensures
            final(self).wf(),
            final(self).regs@ == (icd::RegsView {
                idr: old(self).regs@.idr.update(idx as int, val),
                ..old(self).regs@
            }),
    {
        self.regs.ICDIDR.set(idx, val);
    }
}

/// The CPU interface: the per-core part of the interrupt controller, used
/// to mask delivery by priority, acknowledge an interrupt and signal its
/// end.
pub struct ICC {
    pub regs: icc::Registers,
}

impl ICC {
    /// Take ownership of this core's interface, in reset state.
    pub fn new() -> (r: ICC)
        ensures
            r.regs@ == (icc::RegsView { icr: 0, pmr: 0, iar: icc::SPURIOUS_ID, eoir: 0 }),
    {
        ICC { regs: icc::Registers::new() }
    }

    /// Turn interrupt signaling to this core off.
    pub fn disable(&mut self)
        ensures
            final(self).regs@ == (icc::RegsView { icr: 0, ..old(self).regs@ }),
    {
        self.regs.ICCICR = 0;
    }

    /// Turn interrupt signaling to this core on (both the secure and the
    /// non-secure enable bits, bits 0 and 1).
    pub fn enable(&mut self)
        ensures
            final(self).regs@ == (icc::RegsView { icr: 3, ..old(self).regs@ }),
    {
        self.regs.ICCICR = 3;
    }

    /// Acknowledge: read the value the controller presents for the
    /// highest-priority pending-and-enabled interrupt. The value must be
    /// passed back unchanged to [`ICC::set_icceoir`].
    pub fn get_icciar(&self) -> (r: ICCIAR)
        ensures
            r.bits == self.regs@.iar,
    {
        ICCIAR { bits: self.regs.ICCIAR }
    }

    /// Read the low byte of the priority mask register.
    pub fn get_iccpmr(&self) -> (r: u8)
        ensures
            r == (self.regs@.pmr & 0xff) as u8,
    {
        let pmr: u32 = self.regs.ICCPMR;
        proof {
            assert(pmr & 0xff < 256) by (bit_vector);
        }
        (pmr & 0xff) as u8
    }

    /// End-of-interrupt: write an acknowledge value back, exactly as it was
    /// returned by [`ICC::get_icciar`].
    pub fn set_icceoir(&mut self, icciar: ICCIAR)
        ensures
            final(self).regs@ == (icc::RegsView { eoir: icciar.bits, ..old(self).regs@ }),
    {
        self.regs.ICCEOIR = icciar.bits;
    }

    /// Withhold delivery of all interrupts whose priority value is at or
    /// above `mask` (numerically lower priority values are more urgent).
    pub fn set_priority_mask(&mut self, mask: u32)
        ensures
            final(self).regs@ == (icc::RegsView { pmr: mask, ..old(self).regs@ }),
    {
        self.regs.ICCPMR = mask;
    }

    /// Write the interface control register directly.
    pub fn set_iccicr(&mut self, x: u32)
        ensures
            final(self).regs@ == (icc::RegsView { icr: x, ..old(self).regs@ }),
    {
        self.regs.ICCICR = x;
    }

    /// Hardware side of the model: the controller presents `bits` as the
    /// next acknowledge value.
    pub fn hw_post(&mut self, bits: u32)
        ensures
            final(self).regs@ == (icc::RegsView { iar: bits, ..old(self).regs@ }),
    {
        self.regs.ICCIAR = bits;
    }
}

/// An acknowledge value: the interrupt identifier packed with the number of
/// the core that requested it (for software-generated interrupts).
#[derive(Clone, Copy, Debug)]
pub struct ICCIAR {
    pub bits: u32,
}

/// The interrupt identifier carried in acknowledge value `bits`.
pub open spec fn ack_id(bits: u32) -> u16 {
    (bits & 0x3ff) as u16
}

/// The requesting core number carried in acknowledge value `bits`.
pub open spec fn requesting_cpu(bits: u32) -> u8 {
    ((bits >> 10) & 0b111) as u8
}

impl ICCIAR {
    /// The raw register value.
    pub fn bits(&self) -> (r: u32)
        ensures
            r == self.bits,
    {
        self.bits
    }

    /// The interrupt identifier: the low ten bits.
    pub fn ackintid(&self) -> (r: u16)
        ensures
            r == ack_id(self.bits),
    {
        let b: u32 = self.bits;
        proof {
            assert(b & 0x3ff < 0x400) by (bit_vector);
        }
        (b & 0x3ff) as u16
    }

    /// The requesting core: three bits above the identifier.
    pub fn cpuid(&self) -> (r: u8)
        ensures
            r == requesting_cpu(self.bits),
    {
        let b: u32 = self.bits;
        proof {
            assert((b >> 10) & 0b111 < 8) by (bit_vector);
        }
        ((b >> 10) & 0b111) as u8
    }
}

/// Configuring an identifier's priority and then reading the priority table
/// at that identifier's offset returns exactly the configured value, for
/// every priority. `ipr.update(i, p)` is the table [`ICD::set_priority`]
/// leaves behind, and `[i]` is what [`ICD::get_priority`] reads.
pub proof fn lemma_priority_round_trip(ipr: Seq<u8>, i: u16, p: u8)
    requires
        i < 1020,
        ipr.len() == 1020,
    ensures
        ipr.update(i as int, p)[i as int] == p,
{
}

/// Setting and then clearing the enable bit of a currently-masked
/// identifier restores the enable bitmap exactly, bit for bit. The two
/// updates are the bitmaps [`ICD::unmask`] and [`ICD::mask`] leave behind.
/// An identifier whose enable bit is already set is left out: clearing it
/// after the (idempotent) set would end with the bit clear, not restored.
pub proof fn lemma_enable_bitmap_round_trip(iser: Seq<u32>, n: u16)
    requires
        n < 1024,
        iser.len() == 32,
        iser[enable_word(n)] & enable_mask(n) == 0,
    ensures
        ({
            let w = enable_word(n);
            let unmasked = iser.update(w, iser[w] | enable_mask(n));
            unmasked.update(w, unmasked[w] & !enable_mask(n)) == iser
        }),
{
    let w = enable_word(n);
    let v = iser[w];
    let k = (n % 32) as u32;
    assert((v | (1u32 << k)) & !(1u32 << k) == v) by (bit_vector)
        requires
            v & (1u32 << k) == 0,
    ;
    let unmasked = iser.update(w, v | enable_mask(n));
    assert(unmasked.update(w, unmasked[w] & !enable_mask(n)) =~= iser);
}

} // verus!
