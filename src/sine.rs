use vstd::prelude::*;

use crate::oscillator::{lemma_phase_advanced_add, Oscillator, Phase};

verus! {

/// Why a frequency cannot drive an oscillator at a given sample rate.
#[derive(Clone, Copy, Debug, PartialEq, Eq, Structural)]
pub enum FrequencyError {
    /// The frequency is zero.
    NotPositive,
    /// The frequency is at or above half the sample rate.
    AboveNyquist,
}

/// Samples per cycle for a tone of `freq_millihertz` thousandths of a hertz at
/// `sample_rate` samples per second: the quotient of sample rate by frequency,
/// rounded to the nearest integer, halves upwards.
pub open spec fn nearest_period(sample_rate: nat, freq_millihertz: nat) -> nat {
    ((2000 * sample_rate + freq_millihertz) / (2 * freq_millihertz)) as nat
}

/// Whether a frequency in thousandths of a hertz lies strictly between zero and
/// half the sample rate.
pub open spec fn playable(sample_rate: nat, freq_millihertz: nat) -> bool {
    0 < freq_millihertz && 2 * freq_millihertz < 1000 * sample_rate
}

/// A sine tone held as a phase accumulator: on each step the clock moves on by one
/// sample modulo the period, and the sample is the sine of the clock's share of a
/// full turn.
pub struct SineWave {
    period: u64,
    clock: u64,
}

impl View for SineWave {
    type V = Phase;

    closed spec fn view(&self) -> Phase {
        Phase { period: self.period as nat, clock: self.clock as nat }
    }
}

impl SineWave {
    /// A tone of `freq_millihertz` thousandths of a hertz at `sample_rate` samples
    /// per second, starting at phase zero. Frequencies of zero, or of half the
    /// sample rate or more, are refused.
    pub fn new(freq_millihertz: u64, sample_rate: u32) -> (r: Result<SineWave, FrequencyError>)
        ensures
            freq_millihertz == 0 <==> r == Err::<SineWave, FrequencyError>(
                FrequencyError::NotPositive,
            ),
            (freq_millihertz > 0 && !playable(sample_rate as nat, freq_millihertz as nat))
                <==> r == Err::<SineWave, FrequencyError>(FrequencyError::AboveNyquist),
            playable(sample_rate as nat, freq_millihertz as nat) <==> r is Ok,
            r matches Ok(w) ==> w@ == (Phase {
                period: nearest_period(sample_rate as nat, freq_millihertz as nat),
                clock: 0,
            }),
            r matches Ok(w) ==> w@.valid() && w@.period >= 2,
    {
        if freq_millihertz == 0 {
            return Err(FrequencyError::NotPositive);
        }
        let rate = sample_rate as u64;
        if freq_millihertz >= 500 * rate {
            return Err(FrequencyError::AboveNyquist);
        }
        let f = freq_millihertz;
        assert(2000 * rate + f >= 4 * f) by (nonlinear_arith)
            requires
                2 * f < 1000 * rate,
        ;
        assert((2000 * rate + f) / (2 * f) >= 2) by (nonlinear_arith)
            requires
                2000 * rate + f >= 4 * f,
                f > 0,
        ;
        assert((2000 * rate + f) / (2 * f) <= 2000 * rate + f) by (nonlinear_arith)
            requires
                f > 0,
        ;
        let period = (2000 * rate + f) / (2 * f);
        Ok(SineWave { period, clock: 0 })
    }

    /// Samples per cycle.
    pub fn period(&self) -> (r: u64)
        ensures
            r == self@.period,
    {
        self.period
    }

    /// Samples elapsed since the start of the current cycle.
    pub fn clock(&self) -> (r: u64)
        ensures
            r == self@.clock,
    {
        self.clock
    }
}

impl Oscillator for SineWave {
    open spec fn valid(v: Phase) -> bool {
        v.valid()
    }

    open spec fn stepped(v: Phase, n: nat) -> Phase {
        v.advanced(n)
    }

    proof fn lemma_stepped_add(v: Phase, a: nat, b: nat) {
        lemma_phase_advanced_add(v, a, b);
    }

    proof fn lemma_stepped_zero(v: Phase) {
        lemma_phase_advanced_add(v, 0, 0);
    }

    fn step(&mut self) {
        self.clock = (self.clock + 1) % self.period;
    }
}

/// The rounded period is within half a sample of the exact one: twice the distance
/// between `period * freq` and `1000 * sample_rate` is at most the frequency.
pub proof fn lemma_nearest_period_error(sample_rate: nat, freq_millihertz: nat)
    requires
        freq_millihertz > 0,
    ensures
        2 * freq_millihertz * nearest_period(sample_rate, freq_millihertz) <= 2000 * sample_rate
            + freq_millihertz,
        2000 * sample_rate < 2 * freq_millihertz * nearest_period(sample_rate, freq_millihertz)
            + freq_millihertz,
{
    let f = freq_millihertz as int;
    let x = 2000 * sample_rate + f;
    let d = 2 * f;
    vstd::arithmetic::div_mod::lemma_fundamental_div_mod(x, d);
    vstd::arithmetic::div_mod::lemma_mod_bound(x, d);
    vstd::arithmetic::div_mod::lemma_div_pos_is_pos(x, d);
}

/// After a whole period of steps a tone is back at the phase it started from, so the
/// samples it gives repeat with that period.
pub proof fn lemma_sine_periodic(v: Phase, n: nat)
    requires
        v.valid(),
    ensures
        SineWave::stepped(v, v.period) == v,
        SineWave::stepped(v, n + v.period) == SineWave::stepped(v, n),
{
    let m = v.period as int;
    vstd::arithmetic::div_mod::lemma_mod_add_multiples_vanish(v.clock as int, m);
    vstd::arithmetic::div_mod::lemma_small_mod(v.clock, v.period);
    vstd::arithmetic::div_mod::lemma_mod_add_multiples_vanish((v.clock + n) as int, m);
}

} // verus!
