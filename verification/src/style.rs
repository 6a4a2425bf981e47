//! What the rendering collaborator needs to know about styling, as plain
//! values: the focused/unfocused region style and the colour of each token
//! kind.

use vstd::prelude::*;
use crate::highlight::{Token, TokenKind};

verus! {

/// The colours the interface uses.
#[derive(Clone, Copy, PartialEq, Eq, Debug, Structural)]
pub enum TextColor {
    Black,
    White,
    Gray,
    DarkGray,
    Magenta,
    Cyan,
    Yellow,
    Green,
    Blue,
}

/// How a region of text is drawn.
#[derive(Clone, Copy, PartialEq, Eq, Debug, Structural)]
pub struct RegionStyle {
    pub fg: TextColor,
    pub bg: Option<TextColor>,
    pub bold: bool,
}

/// The style of an input region: inverted and bold while it holds focus,
/// muted otherwise.
pub open spec fn style_for_focus_spec(focused: bool) -> RegionStyle {
    if focused {
        RegionStyle { fg: TextColor::White, bg: Option::Some(TextColor::DarkGray), bold: true }
    } else {
        RegionStyle { fg: TextColor::Gray, bg: Option::None, bold: false }
    }
}

pub fn style_for_focus(focused: bool) -> (r: RegionStyle)
    ensures
        r == style_for_focus_spec(focused),
{
    if focused {
        RegionStyle { fg: TextColor::White, bg: Option::Some(TextColor::DarkGray), bold: true }
    } else {
        RegionStyle { fg: TextColor::Gray, bg: Option::None, bold: false }
    }
}

/// The colour a token is drawn in: strings yellow, numbers green, colons
/// gray, brackets cyan, and plain text in the default colour.
pub open spec fn token_color_spec(kind: TokenKind, text: Seq<char>) -> Option<TextColor> {
    match kind {
        TokenKind::Quoted => Option::Some(TextColor::Yellow),
        TokenKind::Number => Option::Some(TextColor::Green),
        TokenKind::Punct => if text == seq![':'] {
            Option::Some(TextColor::Gray)
        } else {
            Option::Some(TextColor::Cyan)
        },
        TokenKind::Plain => Option::None,
    }
}

pub fn token_color(t: &Token) -> (c: Option<TextColor>)
    ensures
        c == token_color_spec(t.kind, t.text@),
{
    match t.kind {
        TokenKind::Quoted => Option::Some(TextColor::Yellow),
        TokenKind::Number => Option::Some(TextColor::Green),
        TokenKind::Punct => {
            let s = t.text.as_str();
            let colon = s.unicode_len() == 1 && s.get_char(0) == ':';
            proof {
                if colon {
                    assert(t.text@ =~~= seq![':']);
                } else {
                    assert(t.text@ != seq![':']);
                }
            }
            if colon {
                Option::Some(TextColor::Gray)
            } else {
                Option::Some(TextColor::Cyan)
            }
        },
        TokenKind::Plain => Option::None,
    }
}

} // verus!
