//! Foreground colours.

use super::csi;
use crate::decimal::{append_decimal, decimal_text};
use vstd::prelude::*;
use vstd::string::StringExecFns;

verus! {

/// The code that says a colour is for the foreground.
pub const FOREGROUND: u8 = 38;

/// A foreground colour.
#[derive(Clone, Copy, Debug, PartialEq, Eq, Structural)]
pub enum Color {
    /// A colour given by its red, green and blue parts.
    Rgb(u8, u8, u8),
    Red,
    Green,
    Blue,
    Magenta,
}

/// The red, green and blue parts of `color`.
pub open spec fn components(color: Color) -> (u8, u8, u8) {
    match color {
        Color::Rgb(r, g, b) => (r, g, b),
        Color::Red => (255u8, 0u8, 0u8),
        Color::Green => (0u8, 255u8, 0u8),
        Color::Blue => (0u8, 0u8, 255u8),
        Color::Magenta => (170u8, 0u8, 170u8),
    }
}

/// The escape sequence that selects `color`: the introducer, the foreground
/// code, the three parts in base ten, each after a semicolon, and `m`.
pub open spec fn color_sequence(color: Color) -> Seq<char> {
    let (r, g, b) = components(color);
    csi() + decimal_text(FOREGROUND as nat) + seq![';'] + decimal_text(r as nat) + seq![';']
        + decimal_text(g as nat) + seq![';'] + decimal_text(b as nat) + seq!['m']
}

impl Color {
    /// The red, green and blue parts of the colour.
    pub fn parts(&self) -> (r: (u8, u8, u8))
        ensures
            r == components(*self),
    {
        match self {
            Color::Rgb(r, g, b) => (*r, *g, *b),
            Color::Red => (255, 0, 0),
            Color::Green => (0, 255, 0),
            Color::Blue => (0, 0, 255),
            Color::Magenta => (170, 0, 170),
        }
    }

    /// The escape sequence that selects the colour.
    pub fn escape(&self) -> (r: String)
        ensures
            r@ == color_sequence(*self),
    {
        let (red, green, blue) = self.parts();
        proof {
            reveal_strlit("\x1B[");
            reveal_strlit(";");
            reveal_strlit("m");
            assert("\x1B["@ =~= csi());
            assert(";"@ =~= seq![';']);
            assert("m"@ =~= seq!['m']);
        }
        let mut out: String = "\x1B[".to_owned();
        append_decimal(&mut out, FOREGROUND as u64);
        out.append(";");
        append_decimal(&mut out, red as u64);
        out.append(";");
        append_decimal(&mut out, green as u64);
        out.append(";");
        append_decimal(&mut out, blue as u64);
        out.append("m");
        out
    }
}

} // verus!
