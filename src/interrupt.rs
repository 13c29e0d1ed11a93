//! Interrupts
use vstd::prelude::*;

use crate::register::{
    after_clear, after_set, lemma_mie_updates, mie_set, HostCsr, StatusRegister,
};

verus! {

/// Critical section token.
///
/// Its existence shows that the executing hart has machine-mode interrupts
/// disabled. Only [`free`] makes one, and lends it to its body by reference
/// for the body's duration.
pub struct CriticalSection {
    _0: (),
}

/// Disables all interrupts: clears MIE.
///
/// Leaving interrupts disabled must not break an invariant that the caller
/// relies on.
pub fn disable<R: StatusRegister>(csr: &mut R)
    ensures
        final(csr).contents() == after_clear::<R>(old(csr).contents()),
{
    csr.clear_mie();
}

/// Enables all interrupts: sets MIE.
///
/// Do not call this inside the body of a [`free`] critical section.
pub fn enable<R: StatusRegister>(csr: &mut R)
    ensures
        final(csr).contents() == after_set::<R>(old(csr).contents()),
{
    csr.set_mie();
}

/// Executes `f` in an interrupt-free context, also known as a critical
/// section.
///
/// The body runs on the register as [`disable`] leaves it, and must leave MIE
/// as it found it. Afterwards MIE is set again if and only if it was set on
/// entry; the body's result is returned.
pub fn free<R, F, T>(csr: &mut R, f: F) -> (r: T)
    where
        R: StatusRegister,
        F: FnOnce(&CriticalSection, &mut R) -> T,
    requires
        forall|cs: &CriticalSection, c: &mut R|
            c.contents() == after_clear::<R>(old(csr).contents()) ==> #[trigger] f.requires((cs, c)),
        forall|cs: &CriticalSection, c: &mut R, t: T|
            c.contents() == after_clear::<R>(old(csr).contents()) && #[trigger] f.ensures((cs, c), t)
                ==> mie_set(final(c).contents()) == mie_set(c.contents()),
    ensures
        exists|cs: &CriticalSection, c: &mut R|
            {
                &&& c.contents() == after_clear::<R>(old(csr).contents())
                &&& R::gated() ==> !mie_set(c.contents())
                &&& #[trigger] f.ensures((cs, c), r)
                &&& final(csr).contents() == if mie_set(old(csr).contents()) {
                    after_set::<R>(final(c).contents())
                } else {
                    final(c).contents()
                }
            },
        mie_set(final(csr).contents()) == mie_set(old(csr).contents()),
{
    let mstatus = csr.read();
    proof {
        lemma_mie_updates(mstatus@);
    }
    disable(csr);
    let cs = CriticalSection { _0: () };
    let r = f(&cs, csr);
    if mstatus.mie() {
        let ghost body_exit = csr.contents();
        enable(csr);
        proof {
            lemma_mie_updates(body_exit);
        }
    }
    r
}

/// Entering a critical section disables interrupts: on a target with the CSR,
/// whatever the register held before, the body sees MIE cleared.
pub proof fn lemma_entry_disables<R: StatusRegister>(before: usize)
    requires
        R::gated(),
    ensures
        !mie_set(after_clear::<R>(before)),
{
    lemma_mie_updates(before);
}

/// Critical sections nest: a section entered from the body of another, which
/// leaves MIE as that body found it, exits with interrupts still disabled.
pub proof fn lemma_nested_exit_disabled<R: StatusRegister>(outer_entry: usize, inner_exit: usize)
    requires
        R::gated(),
        mie_set(inner_exit) == mie_set(after_clear::<R>(outer_entry)),
    ensures
        !mie_set(inner_exit),
{
    lemma_mie_updates(outer_entry);
}

/// On a target without the CSR, disabling and enabling leave the simulated
/// register untouched.
pub proof fn lemma_host_gate_untouched(bits: usize)
    ensures
        after_clear::<HostCsr>(bits) == bits,
        after_set::<HostCsr>(bits) == bits,
{
}

} // verus!
