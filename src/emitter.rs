use vstd::prelude::*;

use crate::oscillator::Oscillator;

verus! {

/// Whether `v` is a sample that `render` may give for an oscillator standing in the
/// state `state`.
pub open spec fn rendered_from<O: Oscillator, T, F: Fn(&O) -> T>(
    render: &F,
    state: O::V,
    v: T,
) -> bool {
    exists|s: O| s@ == state && #[trigger] call_ensures(*render, (&s,), v)
}

/// Sample `i` of an interleaved buffer belongs to frame `j` exactly when it lies in
/// `j * c .. j * c + c`.
proof fn lemma_frame_of(i: int, j: int, c: int)
    requires
        c > 0,
        0 <= i,
        0 <= j,
    ensures
        j * c <= i < j * c + c <==> i / c == j,
        i < j * c ==> i / c < j,
{
    vstd::arithmetic::div_mod::lemma_fundamental_div_mod(i, c);
    vstd::arithmetic::div_mod::lemma_mod_bound(i, c);
    let q = i / c;
    let r = i % c;
    assert(j * c <= i < j * c + c ==> q == j) by (nonlinear_arith)
        requires
            i == c * q + r,
            0 <= r < c,
    ;
    assert(q == j ==> j * c <= i < j * c + c) by (nonlinear_arith)
        requires
            i == c * q + r,
            0 <= r < c,
    ;
    assert(i < j * c ==> q < j) by (nonlinear_arith)
        requires
            i == c * q + r,
            0 <= r < c,
            c > 0,
    ;
}

/// Fills an interleaved buffer of `channels` samples per frame. For each frame in
/// buffer order the oscillator steps once, `render` turns its new state into a sample,
/// and that one sample is written to every channel of the frame.
pub fn fill_frames<O: Oscillator, T: Copy, F: Fn(&O) -> T>(
    output: &mut [T],
    channels: usize,
    osc: &mut O,
    render: &F,
)
    requires
        channels > 0,
        old(output)@.len() % (channels as nat) == 0,
        O::valid(old(osc)@),
        forall|s: &O| #[trigger] call_requires(*render, (s,)),
    ensures
        final(output)@.len() == old(output)@.len(),
        O::valid(final(osc)@),
        final(osc)@ == O::stepped(old(osc)@, old(output)@.len() / (channels as nat)),
        forall|i: int|
            0 <= i < final(output)@.len() ==> rendered_from(
                render,
                O::stepped(old(osc)@, (i / (channels as int) + 1) as nat),
                #[trigger] final(output)@[i],
            ),
        forall|i: int, k: int|
            0 <= i < final(output)@.len() && 0 <= k < final(output)@.len() && i / (channels as int)
                == k / (channels as int) ==> #[trigger] final(output)@[i]
                == #[trigger] final(output)@[k],
{
    let ghost start = osc@;
    let len = output.len();
    let frames = len / channels;
    proof {
        vstd::arithmetic::div_mod::lemma_fundamental_div_mod(len as int, channels as int);
        O::lemma_stepped_zero(start);
    }
    let mut j: usize = 0;
    while j < frames
        invariant
            channels > 0,
            len == output@.len(),
            frames == len / channels,
            frames * channels == len,
            j <= frames,
            O::valid(start),
            forall|s: &O| #[trigger] call_requires(*render, (s,)),
            osc@ == O::stepped(start, j as nat),
            O::valid(osc@),
            forall|i: int|
                0 <= i < j * channels ==> rendered_from(
                    render,
                    O::stepped(start, (i / (channels as int) + 1) as nat),
                    #[trigger] output@[i],
                ),
            forall|i: int, k: int|
                0 <= i < j * channels && 0 <= k < j * channels && i / (channels as int) == k
                    / (channels as int) ==> #[trigger] output@[i] == #[trigger] output@[k],
        decreases frames - j,
    {
        osc.step();
        proof {
            O::lemma_stepped_add(start, j as nat, 1);
        }
        let v = render(&*osc);
        let ghost cur = *osc;
        assert(j * channels + channels <= len) by (nonlinear_arith)
            requires
                j < frames,
                frames * channels == len,
        ;
        let base = j * channels;
        let mut k: usize = 0;
        while k < channels
            invariant
                channels > 0,
                len == output@.len(),
                base == j * channels,
                base + channels <= len,
                k <= channels,
                forall|i: int|
                    0 <= i < j * channels ==> rendered_from(
                        render,
                        O::stepped(start, (i / (channels as int) + 1) as nat),
                        #[trigger] output@[i],
                    ),
                forall|i: int, k2: int|
                    0 <= i < j * channels && 0 <= k2 < j * channels && i / (channels as int)
                        == k2 / (channels as int) ==> #[trigger] output@[i] == #[trigger] output@[k2],
                forall|i: int| base <= i < base + k ==> #[trigger] output@[i] == v,
            decreases channels - k,
        {
            output[base + k] = v;
            k += 1;
        }
        proof {
            assert(cur@ == O::stepped(start, (j + 1) as nat));
            assert(call_ensures(*render, (&cur,), v));
            assert((j + 1) * channels == j * channels + channels) by (nonlinear_arith);
            assert forall|i: int| 0 <= i < (j + 1) * channels implies rendered_from(
                render,
                O::stepped(start, (i / (channels as int) + 1) as nat),
                #[trigger] output@[i],
            ) by {
                lemma_frame_of(i, j as int, channels as int);
                if i >= j * channels {
                    assert(output@[i] == v);
                    assert(cur@ == O::stepped(start, (i / (channels as int) + 1) as nat));
                    assert(call_ensures(*render, (&cur,), output@[i]));
                }
            }
            assert forall|i: int, k2: int|
                0 <= i < (j + 1) * channels && 0 <= k2 < (j + 1) * channels && i / (channels as int)
                    == k2 / (channels as int) implies #[trigger] output@[i] == #[trigger] output@[k2] by {
                lemma_frame_of(i, j as int, channels as int);
                lemma_frame_of(k2, j as int, channels as int);
            }
        }
        j += 1;
    }
}

} // verus!
