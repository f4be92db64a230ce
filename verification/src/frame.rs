//! Frames on the wire: every pixel as four bytes, in frame order, with
//! nothing before, between or after them.

use vstd::prelude::*;
use crate::color::{channels, get_channels, lemma_pack_of_channels, Color};

verus! {

/// The bytes that a run of pixels puts on the wire: byte `i` is channel
/// `i % 4` of pixel `i / 4`.
pub open spec fn frame_bytes(pixels: Seq<Color>) -> Seq<u8> {
    Seq::new(4 * pixels.len(), |i: int| channels(pixels[i / 4])[i % 4])
}

/// Pixels one after another give their bytes one after another: the
/// stream has no header, delimiter or length prefix.
pub proof fn lemma_frame_bytes_concat(first: Seq<Color>, second: Seq<Color>)
    ensures
        frame_bytes(first + second) == frame_bytes(first) + frame_bytes(second),
{
    assert(frame_bytes(first + second) =~= frame_bytes(first) + frame_bytes(second));
}

/// One more pixel adds its four bytes at the end.
pub proof fn lemma_frame_bytes_push(pixels: Seq<Color>, c: Color)
    ensures
        frame_bytes(pixels.push(c)) == frame_bytes(pixels) + channels(c),
{
    lemma_frame_bytes_concat(pixels, seq![c]);
}

/// The bytes determine the pixels: two runs with the same bytes are the
/// same run.
pub proof fn lemma_frame_bytes_injective(first: Seq<Color>, second: Seq<Color>)
    requires
        frame_bytes(first) == frame_bytes(second),
    ensures
        first == second,
{
    assert(4 * second.len() == frame_bytes(second).len());
    assert forall|k: int| 0 <= k < first.len() implies first[k] == second[k] by {
        let x = frame_bytes(first);
        let y = frame_bytes(second);
        assert(x[4 * k] == y[4 * k]);
        assert(x[4 * k + 1] == y[4 * k + 1]);
        assert(x[4 * k + 2] == y[4 * k + 2]);
        assert(x[4 * k + 3] == y[4 * k + 3]);
        lemma_pack_of_channels(first[k]);
        lemma_pack_of_channels(second[k]);
    }
}

/// Serializes a run of pixels for the pipe.
pub fn serialize_frame(pixels: &[Color]) -> (bytes: Vec<u8>)
    ensures
        bytes@ == frame_bytes(pixels@),
{
    let mut bytes: Vec<u8> = Vec::new();
    let mut i: usize = 0;
    while i < pixels.len()
        invariant
            i <= pixels.len(),
            bytes@ == frame_bytes(pixels@.take(i as int)),
        decreases pixels.len() - i,
    {
        let c = get_channels(pixels[i]);
        proof {
            lemma_frame_bytes_push(pixels@.take(i as int), pixels@[i as int]);
        }
        bytes.push(c[0]);
        bytes.push(c[1]);
        bytes.push(c[2]);
        bytes.push(c[3]);
        i += 1;
    }
    bytes
}

} // verus!
