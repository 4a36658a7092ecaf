//! The theme values that the text layout resolves.

use vstd::prelude::*;

verus! {

/// A colour as packed RGBA.
#[derive(Clone, Copy, Debug, PartialEq, Eq, Structural)]
pub struct Color(pub u32);

/// The environment of a pass: the font and the colour of labels.
#[derive(Clone, Debug, PartialEq, Eq)]
pub struct Env {
    pub font_name: String,
    pub text_size: u64,
    pub label_color: Color,
}

impl Env {
    pub fn new(font_name: String, text_size: u64, label_color: Color) -> (env: Env)
        ensures
            env == (Env { font_name, text_size, label_color }),
    {
        Env { font_name, text_size, label_color }
    }
}

} // verus!
