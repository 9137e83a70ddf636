//! Bit-exact PCM adaptor line encoder: turns a 44.1 kHz / 16-bit stereo
//! stream into the on-tape video line structure (interleaved data words,
//! parity word, CRC-16 seal, preamble and white reference) used by early
//! consumer PCM audio adaptors.

pub mod audio;
pub mod crc;
pub mod display;
pub mod mode;
pub mod pcm;
pub mod playlist;
pub mod raster;
pub mod timer;
