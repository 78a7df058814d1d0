//! What the processor asks of the memory it is wired to.
use crate::interrupts::InterruptManager;
use vstd::prelude::*;

verus! {

/// A memory bus as the processor sees it: byte loads and stores, and a hook that
/// advances everything behind the bus by one T-cycle.
///
/// An implementor is a deterministic machine.  Its view is its mathematical state;
/// the three `_spec` functions define what each operation does to that state, and
/// the operations are bound to them.
pub trait Bus: View {
    /// The states that the operations accept and keep.
    spec fn inv(v: Self::V) -> bool;

    /// State after, and byte returned by, a load from `a`.
    spec fn load_spec(v: Self::V, a: u16) -> (Self::V, u8);

    /// State after a store of `d` to `a`.
    spec fn store_spec(v: Self::V, a: u16, d: u8) -> Self::V;

    /// State and interrupt registers after one T-cycle, where `div` is the
    /// processor's divider counter in that cycle.
    spec fn external_step_spec(v: Self::V, div: u16, ints: InterruptManager) -> (
        Self::V,
        InterruptManager,
    );

    /// Reads the byte at `a`.
    fn load(&mut self, a: u16) -> (r: u8)
        requires
            Self::inv(old(self)@),
        ensures
            Self::inv(final(self)@),
            (final(self)@, r) == Self::load_spec(old(self)@, a),
    ;

    /// Writes `d` to `a`.
    fn store(&mut self, a: u16, d: u8)
        requires
            Self::inv(old(self)@),
        ensures
            Self::inv(final(self)@),
            final(self)@ == Self::store_spec(old(self)@, a, d),
    ;

    /// Advances everything behind the bus by one T-cycle.
    fn external_step(&mut self, div: u16, ints: &mut InterruptManager)
        requires
            Self::inv(old(self)@),
            old(ints).wf(),
        ensures
            Self::inv(final(self)@),
            final(ints).wf(),
            (final(self)@, *final(ints)) == Self::external_step_spec(
                old(self)@,
                div,
                *old(ints),
            ),
    ;
}

} // verus!
