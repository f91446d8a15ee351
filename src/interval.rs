use vstd::prelude::*;

verus! {

/// A musical interval between two pitches of the chromatic scale, up to one octave.
#[derive(Clone, Copy, Debug, PartialEq, Eq, Structural)]
pub enum Interval {
    Unison,
    MinorSecond,
    MajorSecond,
    MinorThird,
    MajorThird,
    Fourth,
    DiminishedFifth,
    Fifth,
    MinorSixth,
    MajorSixth,
    MinorSeventh,
    MajorSeventh,
    Octave,
}

impl Interval {
    /// The number of equal-tempered half steps the interval spans; its frequency
    /// ratio is two raised to this count over twelve.
    pub open spec fn semitone_count(self) -> nat {
        match self {
            Interval::Unison => 0,
            Interval::MinorSecond => 1,
            Interval::MajorSecond => 2,
            Interval::MinorThird => 3,
            Interval::MajorThird => 4,
            Interval::Fourth => 5,
            Interval::DiminishedFifth => 6,
            Interval::Fifth => 7,
            Interval::MinorSixth => 8,
            Interval::MajorSixth => 9,
            Interval::MinorSeventh => 10,
            Interval::MajorSeventh => 11,
            Interval::Octave => 12,
        }
    }

    /// The half steps spanned by the interval.
    pub fn semitones(&self) -> (r: u32)
        ensures
            r == self.semitone_count(),
    {
        match self {
            Interval::Unison => 0,
            Interval::MinorSecond => 1,
            Interval::MajorSecond => 2,
            Interval::MinorThird => 3,
            Interval::MajorThird => 4,
            Interval::Fourth => 5,
            Interval::DiminishedFifth => 6,
            Interval::Fifth => 7,
            Interval::MinorSixth => 8,
            Interval::MajorSixth => 9,
            Interval::MinorSeventh => 10,
            Interval::MajorSeventh => 11,
            Interval::Octave => 12,
        }
    }

    /// The intervals above the root that make up a major triad: the root itself,
    /// the major third and the perfect fifth.
    pub fn major_triad() -> (r: [Interval; 3])
        ensures
            r@ == seq![Interval::Unison, Interval::MajorThird, Interval::Fifth],
    {
        let r = [Interval::Unison, Interval::MajorThird, Interval::Fifth];
        assert(r@ =~= seq![Interval::Unison, Interval::MajorThird, Interval::Fifth]);
        r
    }
}

/// Every interval spans between zero and twelve half steps; only the unison spans
/// none and only the octave spans twelve.
pub proof fn lemma_semitone_bounds(i: Interval)
    ensures
        i.semitone_count() <= 12,
        i.semitone_count() == 0 <==> i == Interval::Unison,
        i.semitone_count() == 12 <==> i == Interval::Octave,
{
}

} // verus!
