//! Semantic colors and the caller-supplied theme mapping that row rendering
//! resolves its colors through.

use vstd::prelude::*;

verus! {

/// A terminal palette color.
#[derive(Clone, Copy, Debug, PartialEq, Eq, Structural)]
pub enum Color {
    White,
    Red,
    Green,
    Yellow,
    Blue,
    Magenta,
    Cyan,
    LightRed,
    LightGreen,
    LightYellow,
    LightBlue,
    LightMagenta,
    LightCyan,
}

/// The theme mapping: semantic roles to palette colors.
#[derive(Clone, Copy, Debug, PartialEq, Eq, Structural)]
pub struct Theme {
    pub fg: Color,
    pub trusted: Color,
    pub remake: Color,
}

impl Default for Theme {
    /// White foreground, green for trusted, red for low-trust.
    fn default() -> (r: Self)
        ensures
            r == (Theme { fg: Color::White, trusted: Color::Green, remake: Color::Red }),
    {
        Theme { fg: Color::White, trusted: Color::Green, remake: Color::Red }
    }
}

} // verus!
