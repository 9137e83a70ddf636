//! The audio-source interface and the pure decisions made when opening a
//! source: format validation and extension dispatch.

use vstd::prelude::*;

verus! {

/// A source of mono 16-bit words, two per stereo sample, left first.
/// Implemented outside the library by the audio file readers.
pub trait AudioFileReader {
    fn next(&mut self) -> Option<u16>;
}

/// ASCII case folding of one character's code point.
pub open spec fn fold_char(c: char) -> u32 {
    if 65 <= c as u32 <= 90 {
        (c as u32 + 32) as u32
    } else {
        c as u32
    }
}

/// Whether `name` ends, ASCII-case-insensitively, with `ext` (given in
/// lowercase).
pub open spec fn has_extension_spec(name: Seq<char>, ext: Seq<char>) -> bool {
    &&& name.len() >= ext.len()
    &&& forall|i: int|
        0 <= i < ext.len() ==> fold_char(name[name.len() - ext.len() + i]) == (#[trigger] ext[i])
            as u32
}

/// Decides, ASCII-case-insensitively, whether a path name ends with the
/// given lowercase extension (such as ".wav", ".flac" or ".m3u").
pub fn path_has_extension(name: &str, ext: &str) -> (r: bool)
    ensures
        r == has_extension_spec(name@, ext@),
{
    let name_len = name.unicode_len();
    let ext_len = ext.unicode_len();
    if name_len < ext_len {
        return false;
    }
    let mut i: usize = 0;
    while i < ext_len
        invariant
            i <= ext_len,
            name_len == name@.len(),
            ext_len == ext@.len(),
            name_len >= ext_len,
            forall|j: int|
                0 <= j < i ==> fold_char(name@[name_len - ext_len + j]) == (#[trigger] ext@[j])
                    as u32,
        decreases ext_len - i,
    {
        let c = name.get_char(name_len - ext_len + i);
        let e = ext.get_char(i);
        let cv = c as u32;
        let cf = if 65 <= cv && cv <= 90 {
            cv + 32
        } else {
            cv
        };
        if cf != e as u32 {
            return false;
        }
        i = i + 1;
    }
    true
}

/// Whether a WAV stream has the one supported format: 44.1 kHz, 16-bit
/// signed integer PCM, two channels.
pub fn wav_format_supported(
    bits_per_sample: u16,
    sample_format_is_int: bool,
    sample_rate: u32,
    channels: u16,
) -> (r: bool)
    ensures
        r == (bits_per_sample == 16 && sample_format_is_int && sample_rate == 44100 && channels
            == 2),
{
    bits_per_sample == 16 && sample_format_is_int && sample_rate == 44100 && channels == 2
}

/// Whether a FLAC stream has the one supported format: 44.1 kHz, 16 bits
/// per sample, two channels.
pub fn flac_format_supported(bits_per_sample: u32, sample_rate: u32, channels: u32) -> (r: bool)
    ensures
        r == (bits_per_sample == 16 && sample_rate == 44100 && channels == 2),
{
    bits_per_sample == 16 && sample_rate == 44100 && channels == 2
}

} // verus!
