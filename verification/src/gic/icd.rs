//! Model of the interrupt-controller distributor register block.
//!
//! The distributor holds the per-identifier state shared by all cores:
//! enable and pending bitmaps, the priority table, routing targets and
//! sensitivity configuration. The model keeps each register the driver
//! touches as an owned plain value; binding it to the memory-mapped device
//! is outside the library. Only the registers the driver reads or writes
//! are modelled; the physical block carries further read-only and reserved
//! registers.

use vstd::prelude::*;

verus! {

/// Distributor registers touched by the driver.
///
/// Array registers are held as vectors of fixed length (see [`Registers::wf`]):
/// 32 words of enable bits, 32 words of pending bits, 1020 priority bytes,
/// 988 routing bytes for the shared peripheral identifiers, 64 configuration
/// words and 64 implementation-defined status words.
#[allow(non_snake_case)]
pub struct Registers {
    /// Distributor control register: bit 0 enables interrupt routing.
    pub ICDDCR: u32,
    /// Set-enable bitmap: bit `id % 32` of word `id / 32` enables `id`.
    pub ICDISER: Vec<u32>,
    /// Set-pending bitmap, same layout as the enable bitmap.
    pub ICDISPR: Vec<u32>,
    /// Priority table: one byte per identifier, lower is more urgent.
    pub ICDIPR: Vec<u8>,
    /// Routing targets: one core-mask byte per shared peripheral identifier,
    /// indexed by `id - 32`.
    pub ICDIPTR_rw: Vec<u8>,
    /// Sensitivity configuration: two bits per identifier, sixteen
    /// identifiers per word; the high bit of a pair selects edge triggering.
    pub ICDICFR: Vec<u32>,
    /// Implementation-defined status words; the platform drives peripheral
    /// line levels into them.
    pub ICDIDR: Vec<u32>,
    /// Software-generated-interrupt request register (write-only on the
    /// device; the model keeps the last written value).
    pub ICDSGIR: u32,
}

/// Mathematical view of the distributor state.
pub struct RegsView {
    pub dcr: u32,
    pub iser: Seq<u32>,
    pub ispr: Seq<u32>,
    pub ipr: Seq<u8>,
    pub iptr: Seq<u8>,
    pub icfr: Seq<u32>,
    pub idr: Seq<u32>,
    pub sgir: u32,
}

impl View for Registers {
    type V = RegsView;

    open spec fn view(&self) -> RegsView {
        RegsView {
            dcr: self.ICDDCR,
            iser: self.ICDISER@,
            ispr: self.ICDISPR@,
            ipr: self.ICDIPR@,
            iptr: self.ICDIPTR_rw@,
            icfr: self.ICDICFR@,
            idr: self.ICDIDR@,
            sgir: self.ICDSGIR,
        }
    }
}

impl Registers {
    /// The register arrays have the lengths of the physical block.
    pub open spec fn wf(&self) -> bool {
        self.ICDISER@.len() == 32
        && self.ICDISPR@.len() == 32
        && self.ICDIPR@.len() == 1020
        && self.ICDIPTR_rw@.len() == 988
        && self.ICDICFR@.len() == 64
        && self.ICDIDR@.len() == 64
    }

    /// Every modelled register reads as zero.
    pub open spec fn is_reset(&self) -> bool {
        self.ICDDCR == 0
        && self.ICDSGIR == 0
        && (forall|i: int| 0 <= i < self.ICDISER@.len() ==> self.ICDISER@[i] == 0u32)
        && (forall|i: int| 0 <= i < self.ICDISPR@.len() ==> self.ICDISPR@[i] == 0u32)
        && (forall|i: int| 0 <= i < self.ICDIPR@.len() ==> self.ICDIPR@[i] == 0u8)
        && (forall|i: int| 0 <= i < self.ICDIPTR_rw@.len() ==> self.ICDIPTR_rw@[i] == 0u8)
        && (forall|i: int| 0 <= i < self.ICDICFR@.len() ==> self.ICDICFR@[i] == 0u32)
        && (forall|i: int| 0 <= i < self.ICDIDR@.len() ==> self.ICDIDR@[i] == 0u32)
    }

    /// A freshly created block with every register zeroed.
    pub fn new() -> (r: Registers)
        ensures
            r.wf(),
            r.is_reset(),
    {
        Registers {
            ICDDCR: 0,
            ICDISER: zeroed_u32(32),
            ICDISPR: zeroed_u32(32),
            ICDIPR: zeroed_u8(1020),
            ICDIPTR_rw: zeroed_u8(988),
            ICDICFR: zeroed_u32(64),
            ICDIDR: zeroed_u32(64),
            ICDSGIR: 0,
        }
    }
}

fn zeroed_u32(n: usize) -> (v: Vec<u32>)
    ensures
        v@.len() == n,
        forall|i: int| 0 <= i < n ==> v@[i] == 0u32,
{
    let mut v: Vec<u32> = Vec::new();
    while v.len() < n
        invariant
            v@.len() <= n,
            forall|i: int| 0 <= i < v@.len() ==> v@[i] == 0u32,
        decreases n - v@.len(),
    {
        v.push(0);
    }
    v
}

fn zeroed_u8(n: usize) -> (v: Vec<u8>)
    ensures
        v@.len() == n,
        forall|i: int| 0 <= i < n ==> v@[i] == 0u8,
{
    let mut v: Vec<u8> = Vec::new();
    while v.len() < n
        invariant
            v@.len() <= n,
            forall|i: int| 0 <= i < v@.len() ==> v@[i] == 0u8,
        decreases n - v@.len(),
    {
        v.push(0);
    }
    v
}

} // verus!
