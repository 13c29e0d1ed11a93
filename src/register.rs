//! The machine-status register (`mstatus`) as far as interrupt control
//! reads and writes it.
use vstd::prelude::*;

verus! {

/// Mask of the machine-mode interrupt-enable bit (MIE) in `mstatus`.
pub const MIE: usize = 0x8;

/// Whether the MIE bit is set in the register contents `bits`.
pub open spec fn mie_set(bits: usize) -> bool {
    bits & MIE != 0
}

/// `bits` with the MIE bit cleared and every other bit kept.
pub open spec fn with_mie_cleared(bits: usize) -> usize {
    bits & !MIE
}

/// `bits` with the MIE bit set and every other bit kept.
pub open spec fn with_mie_set(bits: usize) -> usize {
    bits | MIE
}

/// Clearing MIE leaves it cleared; setting MIE leaves it set.
pub proof fn lemma_mie_updates(bits: usize)
    ensures
        !mie_set(with_mie_cleared(bits)),
        mie_set(with_mie_set(bits)),
{
    assert(bits & !0x8usize & 0x8usize == 0) by (bit_vector);
    assert((bits | 0x8usize) & 0x8usize != 0) by (bit_vector);
}

/// A value read from the machine-status register.
#[derive(Clone, Copy)]
pub struct Mstatus {
    bits: usize,
}

impl View for Mstatus {
    type V = usize;

    closed spec fn view(&self) -> usize {
        self.bits
    }
}

impl Mstatus {
    /// A register value holding `bits`.
    pub fn from_bits(bits: usize) -> (r: Mstatus)
        ensures
            r@ == bits,
    {
        Mstatus { bits }
    }

    /// The raw contents of the register.
    pub fn bits(&self) -> (r: usize)
        ensures
            r == self@,
    {
        self.bits
    }

    /// Machine-mode interrupt enable.
    pub fn mie(&self) -> (r: bool)
        ensures
            r == mie_set(self@),
    {
        self.bits & MIE != 0
    }
}

/// The machine-status register of the executing hart.
///
/// On a RISC-V target the register exists and clearing or setting MIE writes
/// it. Elsewhere the register is only simulated and both operations leave it
/// untouched, so that portable code built on them still runs.
pub trait StatusRegister: Sized {
    /// The register's current contents.
    spec fn contents(&self) -> usize;

    /// Whether clearing and setting MIE reach the register on this target.
    spec fn gated() -> bool;

    /// Reads the register.
    fn read(&self) -> (r: Mstatus)
        ensures
            r@ == self.contents(),
    ;

    /// Clears MIE, where the target has the bit.
    fn clear_mie(&mut self)
        ensures
            final(self).contents() == if Self::gated() {
                with_mie_cleared(old(self).contents())
            } else {
                old(self).contents()
            },
    ;

    /// Sets MIE, where the target has the bit.
    fn set_mie(&mut self)
        ensures
            final(self).contents() == if Self::gated() {
                with_mie_set(old(self).contents())
            } else {
                old(self).contents()
            },
    ;
}

/// The contents of a register of kind `R` after clearing MIE in `bits`.
pub open spec fn after_clear<R: StatusRegister>(bits: usize) -> usize {
    if R::gated() {
        with_mie_cleared(bits)
    } else {
        bits
    }
}

/// The contents of a register of kind `R` after setting MIE in `bits`.
pub open spec fn after_set<R: StatusRegister>(bits: usize) -> usize {
    if R::gated() {
        with_mie_set(bits)
    } else {
        bits
    }
}

/// The machine-status CSR of a RISC-V hart, held as a value: clearing and
/// setting MIE write it.
pub struct Csr {
    bits: usize,
}

impl Csr {
    /// A hart whose machine-status register holds `bits`.
    pub fn new(bits: usize) -> (r: Csr)
        ensures
            r.contents() == bits,
    {
        Csr { bits }
    }
}

impl StatusRegister for Csr {
    closed spec fn contents(&self) -> usize {
        self.bits
    }

    open spec fn gated() -> bool {
        true
    }

    fn read(&self) -> (r: Mstatus) {
        Mstatus::from_bits(self.bits)
    }

    fn clear_mie(&mut self) {
        self.bits = self.bits & !MIE;
    }

    fn set_mie(&mut self) {
        self.bits = self.bits | MIE;
    }
}

/// A simulated machine-status register on a target without the CSR.
///
/// Reads see the simulated contents; clearing and setting MIE are no-ops.
pub struct HostCsr {
    bits: usize,
}

impl HostCsr {
    /// A simulated register holding `bits`.
    pub fn new(bits: usize) -> (r: HostCsr)
        ensures
            r.contents() == bits,
    {
        HostCsr { bits }
    }
}

impl StatusRegister for HostCsr {
    closed spec fn contents(&self) -> usize {
        self.bits
    }

    open spec fn gated() -> bool {
        false
    }

    fn read(&self) -> (r: Mstatus) {
        Mstatus::from_bits(self.bits)
    }

    fn clear_mie(&mut self) {
    }

    fn set_mie(&mut self) {
    }
}

} // verus!
