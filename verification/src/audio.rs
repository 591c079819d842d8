use vstd::prelude::*;

use crate::buffer::EvcxrContent;

verus! {

/// The two channels alternated into one sequence: left then right for every
/// index both channels hold, then whatever the longer channel has left.
pub open spec fn interleaved(l: Seq<i16>, r: Seq<i16>) -> Seq<i16> {
    Seq::new(
        l.len() + r.len(),
        |i: int|
            if i < 2 * vstd::math::min(l.len() as int, r.len() as int) {
                if i % 2 == 0 {
                    l[i / 2]
                } else {
                    r[i / 2]
                }
            } else if l.len() > r.len() {
                l[i - r.len()]
            } else {
                r[i - l.len()]
            },
    )
}

/// Alternates the two channel buffers into one sample sequence, left first,
/// ready for a two-channel codec. The channels are expected to be of equal
/// length; with unequal lengths the longer channel's tail follows the
/// alternating pairs, as `interleaved` spells out.
pub fn interleave_i16(l: &Vec<i16>, r: &Vec<i16>) -> (out: Vec<i16>)
    requires
        l@.len() + r@.len() <= usize::MAX,
    ensures
        out@ == interleaved(l@, r@),
{
    let shorter: usize = if l.len() <= r.len() {
        l.len()
    } else {
        r.len()
    };
    let mut out: Vec<i16> = Vec::new();
    let mut k: usize = 0;
    while k < shorter
        invariant
            k <= shorter,
            l@.len() + r@.len() <= usize::MAX,
            shorter == vstd::math::min(l@.len() as int, r@.len() as int),
            out@.len() == 2 * k,
            forall|i: int| 0 <= i < k ==> out@[2 * i] == l@[i] && out@[2 * i + 1] == r@[i],
        decreases shorter - k,
    {
        out.push(l[k]);
        out.push(r[k]);
        assert forall|i: int| 0 <= i < k + 1 implies out@[2 * i] == l@[i] && out@[2 * i + 1]
            == r@[i] by {}
        k = k + 1;
    }
    let mut k: usize = shorter;
    if l.len() > r.len() {
        while k < l.len()
            invariant
                shorter <= k <= l@.len(),
                r@.len() == shorter,
                l@.len() + r@.len() <= usize::MAX,
                out@.len() == shorter + k,
                forall|i: int|
                    0 <= i < shorter ==> out@[2 * i] == l@[i] && out@[2 * i + 1] == r@[i],
                forall|i: int| 2 * shorter <= i < out@.len() ==> out@[i] == l@[i - shorter],
            decreases l@.len() - k,
        {
            out.push(l[k]);
            k = k + 1;
        }
    } else {
        while k < r.len()
            invariant
                shorter <= k <= r@.len(),
                l@.len() == shorter,
                l@.len() + r@.len() <= usize::MAX,
                out@.len() == shorter + k,
                forall|i: int|
                    0 <= i < shorter ==> out@[2 * i] == l@[i] && out@[2 * i + 1] == r@[i],
                forall|i: int| 2 * shorter <= i < out@.len() ==> out@[i] == r@[i - shorter],
            decreases r@.len() - k,
        {
            out.push(r[k]);
            k = k + 1;
        }
    }
    proof {
        assert forall|i: int| 0 <= i < out@.len() implies out@[i] == interleaved(l@, r@)[i] by {
            if i < 2 * vstd::math::min(l@.len() as int, r@.len() as int) {
                let h = i / 2;
                assert(out@[2 * h] == l@[h] && out@[2 * h + 1] == r@[h]);
            }
        }
        assert(out@ =~= interleaved(l@, r@));
    }
    out
}

/// For equal-length channels the interleaved stream holds exactly two
/// samples per pair, alternating left then right for every pair index.
pub proof fn lemma_interleaved_alternates(l: Seq<i16>, r: Seq<i16>)
    requires
        l.len() == r.len(),
    ensures
        interleaved(l, r).len() == 2 * l.len(),
        forall|i: int| 0 <= i < l.len() ==> interleaved(l, r)[2 * i] == l[i],
        forall|i: int| 0 <= i < l.len() ==> interleaved(l, r)[2 * i + 1] == r[i],
{
    assert forall|i: int| 0 <= i < l.len() implies interleaved(l, r)[2 * i] == l[i] && interleaved(
        l,
        r,
    )[2 * i + 1] == r[i] by {
        assert((2 * i) % 2 == 0 && (2 * i) / 2 == i && (2 * i + 1) % 2 == 1 && (2 * i + 1) / 2
            == i) by (nonlinear_arith);
    }
}

impl EvcxrContent {
    /// Assembles a lossy audio codec's two output phases into a buffer
    /// tagged `application/ogg`, cursor at the start: the bytes the encoding
    /// pass produced come first, the bytes an explicit flush drained follow
    /// them, in that order.
    pub fn from_ogg_parts(encoded: Vec<u8>, drained: Vec<u8>) -> (r: EvcxrContent)
        requires
            encoded@.len() + drained@.len() <= usize::MAX,
        ensures
            r@.mime == "application/ogg"@,
            r@.data == encoded@ + drained@,
            r@.pos == 0,
    {
        let mut output = encoded;
        let mut tail = drained;
        output.append(&mut tail);
        EvcxrContent::from_parts("application/ogg", output)
    }
}

} // verus!
