//! A "callsign copy" trainer library: it generates a pseudo-random amateur
//! radio style callsign (a short letter prefix, a digit, a letter suffix),
//! fixes the sequence of phonetic audio clips that renders it, and checks a
//! typed answer against the generated text. Audio decoding, playback and the
//! window live in the surrounding application; the table, the generator, the
//! answer check and the action guards are verified here.

use vstd::prelude::*;

pub mod callsign;
pub mod generator;
pub mod phonetics;
pub mod session;

verus! {

/// True of the bytes the trainer treats as letters: ASCII `A` through `Z`.
pub open spec fn is_upper_letter(c: u8) -> bool {
    65 <= c <= 90
}

/// True of the bytes the trainer treats as digits: ASCII `0` through `9`.
pub open spec fn is_digit(c: u8) -> bool {
    48 <= c <= 57
}

/// A phonetic symbol is anything the sound table can render: an uppercase
/// letter or a digit.
pub open spec fn is_symbol(c: u8) -> bool {
    is_upper_letter(c) || is_digit(c)
}

} // verus!
