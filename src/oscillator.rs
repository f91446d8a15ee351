use vstd::prelude::*;

verus! {

/// A source of one signal sample per step. The value of a sample is read from the
/// state after the step; each implementation describes its state by its view.
pub trait Oscillator: View + Sized {
    /// The states from which stepping is defined.
    spec fn valid(v: Self::V) -> bool;

    /// The state reached from `v` after `n` steps.
    spec fn stepped(v: Self::V, n: nat) -> Self::V;

    /// Stepping `a` times and then `b` times is stepping `a + b` times, and stays
    /// within the valid states.
    proof fn lemma_stepped_add(v: Self::V, a: nat, b: nat)
        requires
            Self::valid(v),
        ensures
            Self::valid(Self::stepped(v, a)),
            Self::stepped(Self::stepped(v, a), b) == Self::stepped(v, a + b),
    ;

    /// Zero steps leave the state as it is.
    proof fn lemma_stepped_zero(v: Self::V)
        requires
            Self::valid(v),
        ensures
            Self::stepped(v, 0) == v,
    ;

    /// Moves the oscillator on by one sample.
    fn step(&mut self)
        requires
            Self::valid(old(self)@),
        ensures
            Self::valid(final(self)@),
            final(self)@ == Self::stepped(old(self)@, 1),
    ;
}

/// A phase counter that runs through `0 .. period` and wraps back to zero.
pub struct Phase {
    pub period: nat,
    pub clock: nat,
}

impl Phase {
    /// The period is at least one sample and the clock lies inside it.
    pub open spec fn valid(self) -> bool {
        self.period >= 1 && self.clock < self.period
    }

    /// The phase after `n` further ticks.
    pub open spec fn advanced(self, n: nat) -> Phase {
        Phase { period: self.period, clock: (self.clock + n) % (self.period as int) as nat }
    }
}

/// Ticking a valid phase keeps it valid, and ticks add up modulo the period.
pub proof fn lemma_phase_advanced_add(p: Phase, a: nat, b: nat)
    requires
        p.valid(),
    ensures
        p.advanced(a).valid(),
        p.advanced(a).advanced(b) == p.advanced(a + b),
        p.advanced(0) == p,
{
    let m = p.period as int;
    let x = (p.clock + a) as int;
    vstd::arithmetic::div_mod::lemma_mod_bound(x, m);
    vstd::arithmetic::div_mod::lemma_add_mod_noop_right(b as int, x, m);
    assert((x % m + b as int) % m == (x + b as int) % m);
    vstd::arithmetic::div_mod::lemma_small_mod(p.clock, p.period);
}

} // verus!
