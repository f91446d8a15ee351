use vstd::prelude::*;

use crate::oscillator::{lemma_phase_advanced_add, Oscillator, Phase};
use crate::sine::SineWave;

verus! {

/// Several tones sounded together. Each step moves every tone on by one sample, in
/// order; the mixed sample is the mean of the tones' samples.
pub struct Mixer {
    voices: Vec<SineWave>,
}

impl View for Mixer {
    type V = Seq<Phase>;

    closed spec fn view(&self) -> Seq<Phase> {
        self.voices@.map_values(|w: SineWave| w@)
    }
}

impl Mixer {
    /// Mixes the given tones, kept in the order given. There must be at least one.
    pub fn new(oscillators: Vec<SineWave>) -> (r: Mixer)
        requires
            oscillators.len() > 0,
            forall|i: int| 0 <= i < oscillators.len() ==> (#[trigger] oscillators@[i])@.valid(),
        ensures
            r@ == oscillators@.map_values(|w: SineWave| w@),
            Mixer::valid(r@),
    {
        Mixer { voices: oscillators }
    }

    /// The number of tones; the mixed sample weighs each by one over this count.
    pub fn len(&self) -> (r: usize)
        ensures
            r == self@.len(),
    {
        self.voices.len()
    }

    /// The tones, in mixing order.
    pub fn voices(&self) -> (r: &Vec<SineWave>)
        ensures
            r@.map_values(|w: SineWave| w@) == self@,
    {
        &self.voices
    }
}

impl Oscillator for Mixer {
    open spec fn valid(v: Seq<Phase>) -> bool {
        v.len() > 0 && forall|i: int| 0 <= i < v.len() ==> (#[trigger] v[i]).valid()
    }

    open spec fn stepped(v: Seq<Phase>, n: nat) -> Seq<Phase> {
        v.map_values(|p: Phase| p.advanced(n))
    }

    proof fn lemma_stepped_add(v: Seq<Phase>, a: nat, b: nat) {
        assert forall|i: int| 0 <= i < v.len() implies (#[trigger] Self::stepped(v, a)[i]).valid()
            && Self::stepped(Self::stepped(v, a), b)[i] == Self::stepped(v, a + b)[i] by {
            lemma_phase_advanced_add(v[i], a, b);
        }
        assert(Self::stepped(Self::stepped(v, a), b) =~= Self::stepped(v, a + b));
    }

    proof fn lemma_stepped_zero(v: Seq<Phase>) {
        assert forall|i: int| 0 <= i < v.len() implies #[trigger] Self::stepped(v, 0)[i]
            == v[i] by {
            lemma_phase_advanced_add(v[i], 0, 0);
        }
        assert(Self::stepped(v, 0) =~= v);
    }

    fn step(&mut self) {
        let ghost start = self@;
        let n = self.voices.len();
        let mut i: usize = 0;
        while i < n
            invariant
                n == self.voices.len(),
                start.len() == n,
                Mixer::valid(start),
                forall|k: int| 0 <= k < i ==> (#[trigger] self.voices@[k])@ == start[k].advanced(1),
                forall|k: int| i <= k < n ==> (#[trigger] self.voices@[k])@ == start[k],
            decreases n - i,
        {
            proof {
                lemma_phase_advanced_add(start[i as int], 1, 0);
            }
            self.voices[i].step();
            i += 1;
        }
        proof {
            assert(self@ =~= Mixer::stepped(start, 1));
            Mixer::lemma_stepped_add(start, 1, 0);
        }
    }
}

/// One step of a mixer moves each of its tones on by exactly one sample, modulo the
/// tone's own period, and leaves every period as it was.
pub proof fn lemma_mixer_steps_each_voice(v: Seq<Phase>)
    requires
        Mixer::valid(v),
    ensures
        Mixer::stepped(v, 1).len() == v.len(),
        forall|i: int|
            0 <= i < v.len() ==> {
                &&& (#[trigger] Mixer::stepped(v, 1)[i]).period == v[i].period
                &&& Mixer::stepped(v, 1)[i].clock == (v[i].clock + 1) % v[i].period
                &&& Mixer::stepped(v, 1)[i] == SineWave::stepped(v[i], 1)
            },
{
}

} // verus!
