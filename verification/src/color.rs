//! Pixels: four 8-bit channels packed into one 32-bit word.

use vstd::prelude::*;

verus! {

/// One RGBA pixel. Red is the most significant byte of the word and alpha
/// the least significant one, whatever the byte order of the host.
pub type Color = u32;

/// The pixel that holds the four channels.
pub open spec fn pack(r: u8, g: u8, b: u8, a: u8) -> Color {
    (r * 0x100_0000 + g * 0x1_0000 + b * 0x100 + a) as Color
}

/// The red channel of a pixel.
pub open spec fn red(c: Color) -> u8 {
    (c / 0x100_0000) as u8
}

/// The green channel of a pixel.
pub open spec fn green(c: Color) -> u8 {
    ((c / 0x1_0000) % 0x100) as u8
}

/// The blue channel of a pixel.
pub open spec fn blue(c: Color) -> u8 {
    ((c / 0x100) % 0x100) as u8
}

/// The alpha channel of a pixel.
pub open spec fn alpha(c: Color) -> u8 {
    (c % 0x100) as u8
}

/// The four bytes that stand for a pixel on the wire: red, green, blue,
/// alpha.
pub open spec fn channels(c: Color) -> Seq<u8> {
    seq![red(c), green(c), blue(c), alpha(c)]
}

/// Unpacking a packed pixel gives the four channel values back: the four
/// values fit the word, so packing cuts nothing off.
pub proof fn lemma_channels_of_pack(r: u8, g: u8, b: u8, a: u8)
    ensures
        r * 0x100_0000 + g * 0x1_0000 + b * 0x100 + a <= u32::MAX,
        red(pack(r, g, b, a)) == r,
        green(pack(r, g, b, a)) == g,
        blue(pack(r, g, b, a)) == b,
        alpha(pack(r, g, b, a)) == a,
        channels(pack(r, g, b, a)) == seq![r, g, b, a],
{
    let c = pack(r, g, b, a);
    assert(c / 0x100_0000 == r && (c / 0x1_0000) % 0x100 == g && (c / 0x100) % 0x100 == b && c
        % 0x100 == a) by (bit_vector)
        requires
            c == r * 0x100_0000 + g * 0x1_0000 + b * 0x100 + a,
    ;
}

/// Packing the channels of a pixel gives the pixel back: the four bytes
/// lose nothing.
pub proof fn lemma_pack_of_channels(c: Color)
    ensures
        pack(red(c), green(c), blue(c), alpha(c)) == c,
{
    assert((c / 0x100_0000) * 0x100_0000 + ((c / 0x1_0000) % 0x100) * 0x1_0000 + ((c / 0x100)
        % 0x100) * 0x100 + c % 0x100 == c && c / 0x100_0000 < 0x100) by (bit_vector);
}

/// Packs four channel values into one pixel.
pub fn get_color(r: u8, g: u8, b: u8, a: u8) -> (c: Color)
    ensures
        c == pack(r, g, b, a),
        channels(c) == seq![r, g, b, a],
{
    let c: u32 = ((r as u32) << 24) | ((g as u32) << 16) | ((b as u32) << 8) | (a as u32);
    assert(c == r * 0x100_0000 + g * 0x1_0000 + b * 0x100 + a) by (bit_vector)
        requires
            c == ((r as u32) << 24) | ((g as u32) << 16) | ((b as u32) << 8) | (a as u32),
    ;
    proof {
        lemma_channels_of_pack(r, g, b, a);
    }
    c
}

/// Unpacks a pixel into its four channel values: red, green, blue, alpha.
pub fn get_channels(c: Color) -> (bytes: [u8; 4])
    ensures
        bytes@ == channels(c),
{
    let r: u8 = (c >> 24) as u8;
    let g: u8 = ((c >> 16) & 0xff) as u8;
    let b: u8 = ((c >> 8) & 0xff) as u8;
    let a: u8 = (c & 0xff) as u8;
    assert(c >> 24 == c / 0x100_0000 && c >> 24 < 0x100) by (bit_vector);
    assert((c >> 16) & 0xff == (c / 0x1_0000) % 0x100) by (bit_vector);
    assert((c >> 8) & 0xff == (c / 0x100) % 0x100) by (bit_vector);
    assert(c & 0xff == c % 0x100) by (bit_vector);
    let bytes: [u8; 4] = [r, g, b, a];
    bytes
}

} // verus!
