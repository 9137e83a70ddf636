//! The line rasterizer: unpacking a 128-bit line word into palette-indexed
//! pixel bytes and composing full raster lines with the preamble and the
//! trailing white reference.

use crate::crc::{add_crc_to_data, crc16_spec, crc_sealed};
use vstd::prelude::*;

verus! {

/// Width of a full raster line in palette-indexed bytes.
pub const PCM_FULL_WIDTH: usize = 137;

/// Width of the data region of a raster line.
pub const PCM_DATA_WIDTH: usize = 128;

/// The CTL payload: the fixed top-112-bit pattern with the mode nibble at
/// bits [19:16] (no copyright, P-correction enabled, Q-correction disabled,
/// no pre-emphasis), before the CRC is sealed in.
pub const CTL_PAYLOAD: u128 = 0xCCCCCCCCCCCCCC000000000000000000u128 | (0b0011u128 << 16);

/// The pixel byte for data column `i` of a line word: the value of bit
/// `127 - i`, so the most significant bit is the leftmost pixel.
pub open spec fn pixel_of(w: u128, i: int) -> u8 {
    ((w >> ((127 - i) as u128)) & 1) as u8
}

/// The 128 pixel bytes of a line word, MSB first.
pub open spec fn pixels_of(w: u128) -> Seq<u8> {
    Seq::new(128, |i: int| pixel_of(w, i))
}

/// Converts a 128-bit line word into 128 pixel bytes, each 0 or 1, the most
/// significant bit leftmost.
pub fn bits_to_pixels(bits: u128) -> (r: Vec<u8>)
    ensures
        r@ == pixels_of(bits),
{
    let mut pixel_bytes: Vec<u8> = Vec::with_capacity(PCM_DATA_WIDTH);
    let mut b: u8 = 0;
    while b < 128
        invariant
            b <= 128,
            pixel_bytes@.len() == b,
            forall|i: int| 0 <= i < b ==> pixel_bytes@[i] == pixel_of(bits, i),
        decreases 128 - b,
    {
        let px: u8 = if (bits >> (127 - b)) & 1 == 1 {
            1
        } else {
            0
        };
        proof {
            let s: u128 = (127 - b) as u128;
            assert(((bits >> s) & 1 == 1 ==> ((bits >> s) & 1) as u8 == 1) && ((bits >> s) & 1 != 1
                ==> ((bits >> s) & 1) as u8 == 0)) by (bit_vector);
        }
        pixel_bytes.push(px);
        b = b + 1;
    }
    proof {
        assert(pixel_bytes@ =~= pixels_of(bits));
    }
    pixel_bytes
}

/// The reassembly of a pixel-byte prefix into a word, MSB first: the
/// spec-level inverse of `pixels_of`, used to state the bijection law.
pub open spec fn word_of_pixels_prefix(pixels: Seq<u8>, k: int) -> u128
    decreases k,
{
    if k <= 0 {
        0
    } else {
        (word_of_pixels_prefix(pixels, k - 1) << 1) | (pixels[k - 1] as u128)
    }
}

/// The word encoded by a full row of pixel bytes, MSB first.
pub open spec fn word_of_pixels(pixels: Seq<u8>) -> u128 {
    word_of_pixels_prefix(pixels, pixels.len() as int)
}

proof fn lemma_word_of_pixels_prefix(w: u128, k: int)
    requires
        1 <= k <= 128,
    ensures
        word_of_pixels_prefix(pixels_of(w), k) == w >> ((128 - k) as u128),
    decreases k,
{
    let pix = pixels_of(w);
    let s: u128 = (128 - k) as u128;
    let b8 = pix[k - 1];
    assert(b8 == ((w >> s) & 1) as u8);
    if k == 1 {
        assert(word_of_pixels_prefix(pix, 0) == 0);
        assert(word_of_pixels_prefix(pix, 1) == (0u128 << 1) | (b8 as u128));
        assert((0u128 << 1) | ((((w >> s) & 1) as u8) as u128) == w >> s) by (bit_vector)
            requires
                s == 127u128,
        ;
    } else {
        lemma_word_of_pixels_prefix(w, k - 1);
        let s1: u128 = (128 - (k - 1)) as u128;
        let prev = word_of_pixels_prefix(pix, k - 1);
        assert((prev << 1) | (b8 as u128) == w >> s) by (bit_vector)
            requires
                prev == w >> s1,
                s1 == s + 1,
                s <= 126,
                b8 == ((w >> s) & 1) as u8,
        ;
    }
}

/// Rasterizer bijection law: reassembling the pixel bytes of
/// `bits_to_pixels(w)` MSB first reproduces `w` exactly.
pub proof fn lemma_rasterizer_bijection(w: u128)
    ensures
        word_of_pixels(pixels_of(w)) == w,
{
    lemma_word_of_pixels_prefix(w, 128);
    assert(w >> 0u128 == w) by (bit_vector);
}

/// The byte at column `i` of the constant base line: the `{1,0,1,0}`
/// preamble, a zeroed data region, and the `{0,2,2,2,2}` white reference.
pub open spec fn base_byte(i: int) -> u8 {
    if i == 0 {
        1
    } else if i == 2 {
        1
    } else if 133 <= i <= 136 {
        2
    } else {
        0
    }
}

/// The constant 137-byte base line template.
pub open spec fn base_line_spec() -> Seq<u8> {
    Seq::new(137, |i: int| base_byte(i))
}

/// Builds the base line template: preamble bytes `{1,0,1,0}`, 128 zeroed
/// data bytes, and the trailing white reference `{0,2,2,2,2}`.
pub fn get_base_line() -> (r: Vec<u8>)
    ensures
        r@ == base_line_spec(),
{
    let mut line: Vec<u8> = Vec::with_capacity(PCM_FULL_WIDTH);
    line.push(1);
    line.push(0);
    line.push(1);
    line.push(0);
    let mut i: usize = 0;
    while i < 128
        invariant
            i <= 128,
            line@.len() == 4 + i,
            forall|j: int| 0 <= j < 4 + i ==> line@[j] == base_byte(j),
        decreases 128 - i,
    {
        line.push(0);
        i = i + 1;
    }
    line.push(0);
    line.push(2);
    line.push(2);
    line.push(2);
    line.push(2);
    proof {
        assert(line@ =~= base_line_spec());
    }
    line
}

/// Composes a full raster line for a line word: the preamble, the 128 data
/// pixels of the word MSB first in bytes [4..132], and the white reference.
pub fn compose_line(word: u128) -> (r: Vec<u8>)
    ensures
        r@.len() == 137,
        forall|i: int| 0 <= i < 4 ==> r@[i] == base_byte(i),
        forall|i: int| 4 <= i < 132 ==> r@[i] == pixel_of(word, i - 4),
        forall|i: int| 132 <= i < 137 ==> r@[i] == base_byte(i),
{
    let mut line = get_base_line();
    let data = bits_to_pixels(word);
    let mut i: usize = 0;
    while i < 128
        invariant
            i <= 128,
            line@.len() == 137,
            data@ == pixels_of(word),
            forall|j: int| 0 <= j < 4 ==> line@[j] == base_byte(j),
            forall|j: int| 4 <= j < 4 + i ==> line@[j] == pixel_of(word, j - 4),
            forall|j: int| 4 + i <= j < 137 ==> line@[j] == base_byte(j),
        decreases 128 - i,
    {
        let px = data[i];
        line[4 + i] = px;
        i = i + 1;
    }
    line
}

/// The sealed control line word carried in row 0 of every field.
pub fn ctl_line_word() -> (r: u128)
    ensures
        r == crc_sealed(CTL_PAYLOAD),
        r >> 16 == CTL_PAYLOAD >> 16,
        r & 0xFFFF == crc16_spec(CTL_PAYLOAD >> 16, 112),
{
    proof {
        assert((0xCCCCCCCCCCCCCC000000000000000000u128 | (0b0011u128 << 16)) & 0xFFFF == 0)
            by (bit_vector);
    }
    add_crc_to_data(CTL_PAYLOAD)
}

} // verus!
