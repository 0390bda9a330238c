//! The colours of the feedback line and of the window's text.

use vstd::prelude::*;

verus! {

/// An opaque colour, one byte per channel.
#[derive(Clone, Copy, Debug, PartialEq, Eq, Structural)]
pub struct Rgb {
    pub r: u8,
    pub g: u8,
    pub b: u8,
}

/// What a piece of feedback means to the player, and so how it is coloured.
#[derive(Clone, Copy, Debug, PartialEq, Eq, Structural)]
pub enum Tone {
    /// Plain text: the prompt, and the window's text in general.
    Neutral,
    /// Something went wrong or the guess missed.
    Error,
    /// The guess hit.
    Success,
}

pub open spec fn tone_rgb(t: Tone) -> Rgb {
    match t {
        Tone::Neutral => Rgb { r: 127, g: 127, b: 127 },
        Tone::Error => Rgb { r: 255, g: 0, b: 0 },
        Tone::Success => Rgb { r: 0, g: 255, b: 0 },
    }
}

impl Tone {
    /// Mid grey for neutral text, pure red for errors, pure green for success.
    pub fn rgb(&self) -> (c: Rgb)
        ensures
            c == tone_rgb(*self),
    {
        match self {
            Tone::Neutral => Rgb { r: 127, g: 127, b: 127 },
            Tone::Error => Rgb { r: 255, g: 0, b: 0 },
            Tone::Success => Rgb { r: 0, g: 255, b: 0 },
        }
    }
}

} // verus!
