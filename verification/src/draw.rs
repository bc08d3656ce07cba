//! Styled text and the drawing vocabulary.
//!
//! Components do not write to the terminal themselves: a render pass produces
//! a sequence of [`DrawOp`] values, and the unverified shell around the
//! library queues them against the real terminal.

use vstd::prelude::*;

verus! {

/// A foreground or background color attribute.
#[derive(Debug, Clone, Copy, PartialEq, Eq, Structural)]
pub enum Color {
    Reset,
    Black,
    White,
    DarkGrey,
    DarkCyan,
    Yellow,
}

/// A foreground/background pair applied to a run of text.
#[derive(Debug, Clone, Copy, PartialEq, Eq, Structural)]
pub struct Colors {
    pub foreground: Color,
    pub background: Color,
}

impl Colors {
    pub fn new(foreground: Color, background: Color) -> (r: Self)
        ensures
            r == (Colors { foreground, background }),
    {
        Self { foreground, background }
    }
}

/// Non-color text attributes, as a bit set; `0` means none.
#[derive(Debug, Clone, Copy, PartialEq, Eq, Structural)]
pub struct TextAttributes {
    pub bits: u32,
}

impl Default for TextAttributes {
    fn default() -> (r: Self)
        ensures
            r == (TextAttributes { bits: 0u32 }),
    {
        Self { bits: 0 }
    }
}

/// A run of text drawn with one set of colors and attributes.
#[derive(Debug, Clone)]
pub struct TextSegment {
    pub colors: Colors,
    pub attributes: TextAttributes,
    pub text: String,
}

impl TextSegment {
    pub fn new(text: &str, colors: Colors, attributes: TextAttributes) -> (r: Self)
        ensures
            r.colors == colors,
            r.attributes == attributes,
            r.text@ == text@,
    {
        Self { colors, attributes, text: text.to_owned() }
    }

    pub fn color(text: &str, colors: Colors) -> (r: Self)
        ensures
            r.colors == colors,
            r.attributes == (TextAttributes { bits: 0u32 }),
            r.text@ == text@,
    {
        Self::new(text, colors, TextAttributes { bits: 0 })
    }

    pub fn plain(text: &str) -> (r: Self)
        ensures
            r.colors == (Colors { foreground: Color::Reset, background: Color::Reset }),
            r.attributes == (TextAttributes { bits: 0u32 }),
            r.text@ == text@,
    {
        Self::new(
            text,
            Colors { foreground: Color::Reset, background: Color::Reset },
            TextAttributes { bits: 0 },
        )
    }
}

/// One queued terminal command.
#[derive(Debug, Clone)]
pub enum DrawOp {
    /// Move the terminal cursor to an absolute (column, row).
    MoveTo(u16, u16),
    /// Apply a foreground/background pair.
    SetColors(Colors),
    /// Apply a set of text attributes.
    SetAttributes(TextAttributes),
    /// Restore the default colors.
    ResetColor,
    /// Print text at the current position.
    Print(String),
    /// Clear from the current position to the end of the line.
    ClearUntilNewLine,
}

/// Holds when `op` prints exactly the characters `s`.
pub open spec fn is_print(op: DrawOp, s: Seq<char>) -> bool {
    op matches DrawOp::Print(t) && t@ == s
}

/// Holds when `seg` is the unstyled text `s`.
pub open spec fn is_plain_segment(seg: TextSegment, s: Seq<char>) -> bool {
    &&& seg.colors == (Colors { foreground: Color::Reset, background: Color::Reset })
    &&& seg.attributes == (TextAttributes { bits: 0u32 })
    &&& seg.text@ == s
}

/// Holds when `seg` is the text `s` drawn with `colors`.
pub open spec fn is_colored_segment(seg: TextSegment, s: Seq<char>, colors: Colors) -> bool {
    &&& seg.colors == colors
    &&& seg.attributes == (TextAttributes { bits: 0u32 })
    &&& seg.text@ == s
}

} // verus!
