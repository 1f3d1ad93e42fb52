//! Latency overlay: position parsing, the 5x7 bitmap font, box placement
//! and alpha-blended rectangles on BGRA frames.

use vstd::prelude::*;
use crate::text::{to_lower, same_text, lower_text};
use vstd::arithmetic::div_mod::{lemma_fundamental_div_mod_converse, lemma_fundamental_div_mod};

verus! {

/// Overlay position on screen
#[derive(Debug, Clone, Copy, PartialEq, Eq, Structural)]
pub enum OverlayPosition {
    TopLeft,
    TopRight,
    BottomLeft,
    BottomRight,
}

impl Default for OverlayPosition {
    fn default() -> (p: Self)
        ensures
            p == OverlayPosition::TopLeft,
    {
        OverlayPosition::TopLeft
    }
}

/// The position that a lowercased name stands for (top-left when unknown).
pub open spec fn position_from_lower(l: Seq<char>) -> OverlayPosition {
    if l == "top-right"@ || l == "topright"@ || l == "tr"@ {
        OverlayPosition::TopRight
    } else if l == "bottom-left"@ || l == "bottomleft"@ || l == "bl"@ {
        OverlayPosition::BottomLeft
    } else if l == "bottom-right"@ || l == "bottomright"@ || l == "br"@ {
        OverlayPosition::BottomRight
    } else {
        OverlayPosition::TopLeft
    }
}

impl OverlayPosition {
    /// The position that an already lower-cased name stands for; unknown names mean top-left.
    pub fn from_lowered(l: &str) -> (p: Self)
        ensures
            p == position_from_lower(l@),
    {
        if same_text(l, "top-right") || same_text(l, "topright") || same_text(l, "tr") {
            OverlayPosition::TopRight
        } else if same_text(l, "bottom-left") || same_text(l, "bottomleft") || same_text(l, "bl") {
            OverlayPosition::BottomLeft
        } else if same_text(l, "bottom-right") || same_text(l, "bottomright") || same_text(l, "br") {
            OverlayPosition::BottomRight
        } else {
            OverlayPosition::TopLeft
        }
    }

    /// Parse from string, ignoring case; unknown names mean top-left.
    pub fn from_str(s: &str) -> (p: Self)
        ensures
            p == position_from_lower(lower_text(s@)),
    {
        OverlayPosition::from_lowered(to_lower(s).as_str())
    }
}

/// A corner named by its vertical side and its horizontal side, joined by
/// a hyphen, written together, or as two initials, reads as the one position
/// whose box stands against exactly those sides.
pub proof fn lemma_position_names(bottom: bool, right: bool)
    ensures
        ({
            let v = if bottom { "bottom"@ } else { "top"@ };
            let h = if right { "right"@ } else { "left"@ };
            let p = position_from_lower(v + "-"@ + h);
            &&& at_bottom(p) == bottom
            &&& at_right(p) == right
            &&& position_from_lower(v + h) == p
            &&& position_from_lower(seq![v[0], h[0]]) == p
        }),
{
    reveal_strlit("top");
    reveal_strlit("bottom");
    reveal_strlit("left");
    reveal_strlit("right");
    reveal_strlit("-");
    reveal_strlit("top-right");
    reveal_strlit("topright");
    reveal_strlit("tr");
    reveal_strlit("bottom-left");
    reveal_strlit("bottomleft");
    reveal_strlit("bl");
    reveal_strlit("bottom-right");
    reveal_strlit("bottomright");
    reveal_strlit("br");
    reveal_strlit("top-left");
    reveal_strlit("topleft");
    reveal_strlit("tl");
    assert("top-right"@.len() == 9 && "top-right"@[0] == 't' && "top-right"@[1] == 'o'
        && "top-right"@[2] == 'p' && "top-right"@[3] == '-' && "top-right"@[4] == 'r'
        && "top-right"@[5] == 'i' && "top-right"@[6] == 'g' && "top-right"@[7] == 'h'
        && "top-right"@[8] == 't');
    assert("topright"@.len() == 8 && "topright"@[0] == 't' && "topright"@[1] == 'o'
        && "topright"@[2] == 'p' && "topright"@[3] == 'r' && "topright"@[4] == 'i'
        && "topright"@[5] == 'g' && "topright"@[6] == 'h' && "topright"@[7] == 't');
    assert("tr"@.len() == 2 && "tr"@[0] == 't' && "tr"@[1] == 'r');
    assert("bottom-left"@.len() == 11 && "bottom-left"@[0] == 'b' && "bottom-left"@[1] == 'o'
        && "bottom-left"@[2] == 't' && "bottom-left"@[3] == 't' && "bottom-left"@[4] == 'o'
        && "bottom-left"@[5] == 'm' && "bottom-left"@[6] == '-' && "bottom-left"@[7] == 'l'
        && "bottom-left"@[8] == 'e' && "bottom-left"@[9] == 'f' && "bottom-left"@[10] == 't');
    assert("bottomleft"@.len() == 10 && "bottomleft"@[0] == 'b' && "bottomleft"@[1] == 'o'
        && "bottomleft"@[2] == 't' && "bottomleft"@[3] == 't' && "bottomleft"@[4] == 'o'
        && "bottomleft"@[5] == 'm' && "bottomleft"@[6] == 'l' && "bottomleft"@[7] == 'e'
        && "bottomleft"@[8] == 'f' && "bottomleft"@[9] == 't');
    assert("bl"@.len() == 2 && "bl"@[0] == 'b' && "bl"@[1] == 'l');
    assert("bottom-right"@.len() == 12 && "bottom-right"@[0] == 'b' && "bottom-right"@[1] == 'o'
        && "bottom-right"@[2] == 't' && "bottom-right"@[3] == 't' && "bottom-right"@[4] == 'o'
        && "bottom-right"@[5] == 'm' && "bottom-right"@[6] == '-' && "bottom-right"@[7] == 'r'
        && "bottom-right"@[8] == 'i' && "bottom-right"@[9] == 'g' && "bottom-right"@[10] == 'h'
        && "bottom-right"@[11] == 't');
    assert("bottomright"@.len() == 11 && "bottomright"@[0] == 'b' && "bottomright"@[1] == 'o'
        && "bottomright"@[2] == 't' && "bottomright"@[3] == 't' && "bottomright"@[4] == 'o'
        && "bottomright"@[5] == 'm' && "bottomright"@[6] == 'r' && "bottomright"@[7] == 'i'
        && "bottomright"@[8] == 'g' && "bottomright"@[9] == 'h' && "bottomright"@[10] == 't');
    assert("br"@.len() == 2 && "br"@[0] == 'b' && "br"@[1] == 'r');
    assert("top-left"@.len() == 8 && "top-left"@[0] == 't' && "top-left"@[1] == 'o'
        && "top-left"@[2] == 'p' && "top-left"@[3] == '-' && "top-left"@[4] == 'l'
        && "top-left"@[5] == 'e' && "top-left"@[6] == 'f' && "top-left"@[7] == 't');
    assert("topleft"@.len() == 7 && "topleft"@[0] == 't' && "topleft"@[1] == 'o'
        && "topleft"@[2] == 'p' && "topleft"@[3] == 'l' && "topleft"@[4] == 'e'
        && "topleft"@[5] == 'f' && "topleft"@[6] == 't');
    assert("tl"@.len() == 2 && "tl"@[0] == 't' && "tl"@[1] == 'l');
    assert("top"@ + "-"@ + "left"@ =~= "top-left"@);
    assert("top"@ + "left"@ =~= "topleft"@);
    assert(seq!["top"@[0], "left"@[0]] =~= "tl"@);
    assert("top"@ + "-"@ + "right"@ =~= "top-right"@);
    assert("top"@ + "right"@ =~= "topright"@);
    assert(seq!["top"@[0], "right"@[0]] =~= "tr"@);
    assert("bottom"@ + "-"@ + "left"@ =~= "bottom-left"@);
    assert("bottom"@ + "left"@ =~= "bottomleft"@);
    assert(seq!["bottom"@[0], "left"@[0]] =~= "bl"@);
    assert("bottom"@ + "-"@ + "right"@ =~= "bottom-right"@);
    assert("bottom"@ + "right"@ =~= "bottomright"@);
    assert(seq!["bottom"@[0], "right"@[0]] =~= "br"@);
}

/// `a - b`, or 0 when `b > a` (as `saturating_sub`).
pub open spec fn sat_sub(a: int, b: int) -> int {
    if a >= b { a - b } else { 0 }
}

/// The box at `p` stands against the right edge of the frame.
pub open spec fn at_right(p: OverlayPosition) -> bool {
    p == OverlayPosition::TopRight || p == OverlayPosition::BottomRight
}

/// The box at `p` stands against the bottom edge of the frame.
pub open spec fn at_bottom(p: OverlayPosition) -> bool {
    p == OverlayPosition::BottomLeft || p == OverlayPosition::BottomRight
}

/// Top-left corner of the overlay box: `padding` away from the chosen corner,
/// clamped at 0 when the frame is too small.
pub fn box_origin(
    position: OverlayPosition,
    width: u32,
    height: u32,
    box_width: u32,
    box_height: u32,
    padding: u32,
) -> (r: (u32, u32))
    requires
        box_width + padding <= u32::MAX,
        box_height + padding <= u32::MAX,
    ensures
        r.0 == if at_right(position) {
            sat_sub(width as int, box_width + padding)
        } else {
            padding as int
        },
        r.1 == if at_bottom(position) {
            sat_sub(height as int, box_height + padding)
        } else {
            padding as int
        },
{
    match position {
        OverlayPosition::TopLeft => (padding, padding),
        OverlayPosition::TopRight => (width.saturating_sub(box_width + padding), padding),
        OverlayPosition::BottomLeft => (padding, height.saturating_sub(box_height + padding)),
        OverlayPosition::BottomRight => (
            width.saturating_sub(box_width + padding),
            height.saturating_sub(box_height + padding),
        ),
    }
}

/// Rows of the 5x7 bitmap of a character (5 low bits per row, left pixel in bit 4).
pub open spec fn char_bitmap(ch: char) -> Seq<u8> {
    match ch {
        '0' => seq![0b01110, 0b10001, 0b10011, 0b10101, 0b11001, 0b10001, 0b01110],
        '1' => seq![0b00100, 0b01100, 0b00100, 0b00100, 0b00100, 0b00100, 0b01110],
        '2' => seq![0b01110, 0b10001, 0b00001, 0b00110, 0b01000, 0b10000, 0b11111],
        '3' => seq![0b01110, 0b10001, 0b00001, 0b00110, 0b00001, 0b10001, 0b01110],
        '4' => seq![0b00010, 0b00110, 0b01010, 0b10010, 0b11111, 0b00010, 0b00010],
        '5' => seq![0b11111, 0b10000, 0b11110, 0b00001, 0b00001, 0b10001, 0b01110],
        '6' => seq![0b00110, 0b01000, 0b10000, 0b11110, 0b10001, 0b10001, 0b01110],
        '7' => seq![0b11111, 0b00001, 0b00010, 0b00100, 0b01000, 0b01000, 0b01000],
        '8' => seq![0b01110, 0b10001, 0b10001, 0b01110, 0b10001, 0b10001, 0b01110],
        '9' => seq![0b01110, 0b10001, 0b10001, 0b01111, 0b00001, 0b00010, 0b01100],
        'a' | 'A' => seq![0b01110, 0b10001, 0b10001, 0b11111, 0b10001, 0b10001, 0b10001],
        'b' | 'B' => seq![0b11110, 0b10001, 0b10001, 0b11110, 0b10001, 0b10001, 0b11110],
        'c' | 'C' => seq![0b01110, 0b10001, 0b10000, 0b10000, 0b10000, 0b10001, 0b01110],
        'd' | 'D' => seq![0b11110, 0b10001, 0b10001, 0b10001, 0b10001, 0b10001, 0b11110],
        'e' | 'E' => seq![0b11111, 0b10000, 0b10000, 0b11110, 0b10000, 0b10000, 0b11111],
        'f' | 'F' => seq![0b11111, 0b10000, 0b10000, 0b11110, 0b10000, 0b10000, 0b10000],
        'g' | 'G' => seq![0b01110, 0b10001, 0b10000, 0b10111, 0b10001, 0b10001, 0b01110],
        'h' | 'H' => seq![0b10001, 0b10001, 0b10001, 0b11111, 0b10001, 0b10001, 0b10001],
        'i' | 'I' => seq![0b01110, 0b00100, 0b00100, 0b00100, 0b00100, 0b00100, 0b01110],
        'j' | 'J' => seq![0b00111, 0b00010, 0b00010, 0b00010, 0b00010, 0b10010, 0b01100],
        'k' | 'K' => seq![0b10001, 0b10010, 0b10100, 0b11000, 0b10100, 0b10010, 0b10001],
        'l' | 'L' => seq![0b10000, 0b10000, 0b10000, 0b10000, 0b10000, 0b10000, 0b11111],
        'm' | 'M' => seq![0b10001, 0b11011, 0b10101, 0b10101, 0b10001, 0b10001, 0b10001],
        'n' | 'N' => seq![0b10001, 0b10001, 0b11001, 0b10101, 0b10011, 0b10001, 0b10001],
        'o' | 'O' => seq![0b01110, 0b10001, 0b10001, 0b10001, 0b10001, 0b10001, 0b01110],
        'p' | 'P' => seq![0b11110, 0b10001, 0b10001, 0b11110, 0b10000, 0b10000, 0b10000],
        'q' | 'Q' => seq![0b01110, 0b10001, 0b10001, 0b10001, 0b10101, 0b10010, 0b01101],
        'r' | 'R' => seq![0b11110, 0b10001, 0b10001, 0b11110, 0b10100, 0b10010, 0b10001],
        's' | 'S' => seq![0b01110, 0b10001, 0b10000, 0b01110, 0b00001, 0b10001, 0b01110],
        't' | 'T' => seq![0b11111, 0b00100, 0b00100, 0b00100, 0b00100, 0b00100, 0b00100],
        'u' | 'U' => seq![0b10001, 0b10001, 0b10001, 0b10001, 0b10001, 0b10001, 0b01110],
        'v' | 'V' => seq![0b10001, 0b10001, 0b10001, 0b10001, 0b10001, 0b01010, 0b00100],
        'w' | 'W' => seq![0b10001, 0b10001, 0b10001, 0b10101, 0b10101, 0b11011, 0b10001],
        'x' | 'X' => seq![0b10001, 0b10001, 0b01010, 0b00100, 0b01010, 0b10001, 0b10001],
        'y' | 'Y' => seq![0b10001, 0b10001, 0b01010, 0b00100, 0b00100, 0b00100, 0b00100],
        'z' | 'Z' => seq![0b11111, 0b00001, 0b00010, 0b00100, 0b01000, 0b10000, 0b11111],
        ':' => seq![0b00000, 0b00100, 0b00000, 0b00000, 0b00000, 0b00100, 0b00000],
        '.' => seq![0b00000, 0b00000, 0b00000, 0b00000, 0b00000, 0b00000, 0b00100],
        '|' => seq![0b00100, 0b00100, 0b00100, 0b00100, 0b00100, 0b00100, 0b00100],
        ' ' => seq![0b00000, 0b00000, 0b00000, 0b00000, 0b00000, 0b00000, 0b00000],
        '-' => seq![0b00000, 0b00000, 0b00000, 0b11111, 0b00000, 0b00000, 0b00000],
        '/' => seq![0b00001, 0b00010, 0b00010, 0b00100, 0b01000, 0b01000, 0b10000],
        '%' => seq![0b11001, 0b11010, 0b00010, 0b00100, 0b01000, 0b01011, 0b10011],
        _ => seq![0u8, 0u8, 0u8, 0u8, 0u8, 0u8, 0u8],
    }
}

/// Get 5x7 bitmap for a character
pub fn get_char_bitmap(ch: char) -> (r: [u8; 7])
    ensures
        r@ == char_bitmap(ch),
{
    let r: [u8; 7] = match ch {
        '0' => [0b01110, 0b10001, 0b10011, 0b10101, 0b11001, 0b10001, 0b01110],
        '1' => [0b00100, 0b01100, 0b00100, 0b00100, 0b00100, 0b00100, 0b01110],
        '2' => [0b01110, 0b10001, 0b00001, 0b00110, 0b01000, 0b10000, 0b11111],
        '3' => [0b01110, 0b10001, 0b00001, 0b00110, 0b00001, 0b10001, 0b01110],
        '4' => [0b00010, 0b00110, 0b01010, 0b10010, 0b11111, 0b00010, 0b00010],
        '5' => [0b11111, 0b10000, 0b11110, 0b00001, 0b00001, 0b10001, 0b01110],
        '6' => [0b00110, 0b01000, 0b10000, 0b11110, 0b10001, 0b10001, 0b01110],
        '7' => [0b11111, 0b00001, 0b00010, 0b00100, 0b01000, 0b01000, 0b01000],
        '8' => [0b01110, 0b10001, 0b10001, 0b01110, 0b10001, 0b10001, 0b01110],
        '9' => [0b01110, 0b10001, 0b10001, 0b01111, 0b00001, 0b00010, 0b01100],
        'a' | 'A' => [0b01110, 0b10001, 0b10001, 0b11111, 0b10001, 0b10001, 0b10001],
        'b' | 'B' => [0b11110, 0b10001, 0b10001, 0b11110, 0b10001, 0b10001, 0b11110],
        'c' | 'C' => [0b01110, 0b10001, 0b10000, 0b10000, 0b10000, 0b10001, 0b01110],
        'd' | 'D' => [0b11110, 0b10001, 0b10001, 0b10001, 0b10001, 0b10001, 0b11110],
        'e' | 'E' => [0b11111, 0b10000, 0b10000, 0b11110, 0b10000, 0b10000, 0b11111],
        'f' | 'F' => [0b11111, 0b10000, 0b10000, 0b11110, 0b10000, 0b10000, 0b10000],
        'g' | 'G' => [0b01110, 0b10001, 0b10000, 0b10111, 0b10001, 0b10001, 0b01110],
        'h' | 'H' => [0b10001, 0b10001, 0b10001, 0b11111, 0b10001, 0b10001, 0b10001],
        'i' | 'I' => [0b01110, 0b00100, 0b00100, 0b00100, 0b00100, 0b00100, 0b01110],
        'j' | 'J' => [0b00111, 0b00010, 0b00010, 0b00010, 0b00010, 0b10010, 0b01100],
        'k' | 'K' => [0b10001, 0b10010, 0b10100, 0b11000, 0b10100, 0b10010, 0b10001],
        'l' | 'L' => [0b10000, 0b10000, 0b10000, 0b10000, 0b10000, 0b10000, 0b11111],
        'm' | 'M' => [0b10001, 0b11011, 0b10101, 0b10101, 0b10001, 0b10001, 0b10001],
        'n' | 'N' => [0b10001, 0b10001, 0b11001, 0b10101, 0b10011, 0b10001, 0b10001],
        'o' | 'O' => [0b01110, 0b10001, 0b10001, 0b10001, 0b10001, 0b10001, 0b01110],
        'p' | 'P' => [0b11110, 0b10001, 0b10001, 0b11110, 0b10000, 0b10000, 0b10000],
        'q' | 'Q' => [0b01110, 0b10001, 0b10001, 0b10001, 0b10101, 0b10010, 0b01101],
        'r' | 'R' => [0b11110, 0b10001, 0b10001, 0b11110, 0b10100, 0b10010, 0b10001],
        's' | 'S' => [0b01110, 0b10001, 0b10000, 0b01110, 0b00001, 0b10001, 0b01110],
        't' | 'T' => [0b11111, 0b00100, 0b00100, 0b00100, 0b00100, 0b00100, 0b00100],
        'u' | 'U' => [0b10001, 0b10001, 0b10001, 0b10001, 0b10001, 0b10001, 0b01110],
        'v' | 'V' => [0b10001, 0b10001, 0b10001, 0b10001, 0b10001, 0b01010, 0b00100],
        'w' | 'W' => [0b10001, 0b10001, 0b10001, 0b10101, 0b10101, 0b11011, 0b10001],
        'x' | 'X' => [0b10001, 0b10001, 0b01010, 0b00100, 0b01010, 0b10001, 0b10001],
        'y' | 'Y' => [0b10001, 0b10001, 0b01010, 0b00100, 0b00100, 0b00100, 0b00100],
        'z' | 'Z' => [0b11111, 0b00001, 0b00010, 0b00100, 0b01000, 0b10000, 0b11111],
        ':' => [0b00000, 0b00100, 0b00000, 0b00000, 0b00000, 0b00100, 0b00000],
        '.' => [0b00000, 0b00000, 0b00000, 0b00000, 0b00000, 0b00000, 0b00100],
        '|' => [0b00100, 0b00100, 0b00100, 0b00100, 0b00100, 0b00100, 0b00100],
        ' ' => [0b00000, 0b00000, 0b00000, 0b00000, 0b00000, 0b00000, 0b00000],
        '-' => [0b00000, 0b00000, 0b00000, 0b11111, 0b00000, 0b00000, 0b00000],
        '/' => [0b00001, 0b00010, 0b00010, 0b00100, 0b01000, 0b01000, 0b10000],
        '%' => [0b11001, 0b11010, 0b00010, 0b00100, 0b01000, 0b01011, 0b10011],
        _ => [0b00000, 0b00000, 0b00000, 0b00000, 0b00000, 0b00000, 0b00000],
    };
    assert(r@ =~= char_bitmap(ch));
    r
}


/// `a + b`, or the largest `u32` when that overflows (as `saturating_add`).
pub open spec fn sat_add_u32(a: u32, b: u32) -> int {
    if a + b <= u32::MAX { a + b } else { u32::MAX as int }
}

/// The smaller of two integers.
pub open spec fn min_int(a: int, b: int) -> int {
    if a <= b { a } else { b }
}

/// Alpha blend of one color channel over a frame byte.
pub open spec fn blend_channel(src: u8, dst: u8, alpha: u8) -> u8 {
    ((src * alpha + dst * (255 - alpha)) / 255) as u8
}

/// Whether byte `idx` of a BGRA frame with the given width lies in a color
/// channel (B, G or R) of a pixel that the rectangle at (x, y) of size w x h
/// covers, clipped to the frame, and whose four bytes all lie in the buffer.
pub open spec fn rect_covers(
    idx: int,
    len: int,
    width: u32,
    height: u32,
    x: u32,
    y: u32,
    w: u32,
    h: u32,
) -> bool {
    let stride = width * 4;
    width > 0 && {
        let py = idx / stride;
        let px = (idx % stride) / 4;
        let ch = idx % 4;
        &&& 0 <= idx < len
        &&& ch < 3
        &&& y <= py < min_int(sat_add_u32(y, h), height as int)
        &&& x <= px < min_int(sat_add_u32(x, w), width as int)
        &&& py * stride + px * 4 + 3 < len
    }
}

proof fn lemma_pixel_index(idx: int, width: int, py: int, px: int, ch: int)
    requires
        width > 0,
        0 <= py,
        0 <= px < width,
        0 <= ch < 4,
        idx == py * (width * 4) + px * 4 + ch,
    ensures
        idx / (width * 4) == py,
        (idx % (width * 4)) / 4 == px,
        idx % 4 == ch,
{
    assert(0 <= px * 4 + ch < width * 4) by (nonlinear_arith)
        requires
            0 <= px < width,
            0 <= ch < 4,
    ;
    lemma_fundamental_div_mod_converse(idx, width * 4, py, px * 4 + ch);
    lemma_fundamental_div_mod_converse(px * 4 + ch, 4, px, ch);
    assert(py * (width * 4) == (py * width) * 4) by (nonlinear_arith);
    lemma_fundamental_div_mod_converse(idx, 4, py * width + px, ch);
}

proof fn lemma_decompose_index(k: int, width: int)
    requires
        width > 0,
        k >= 0,
    ensures
        k == (k / (width * 4)) * (width * 4) + ((k % (width * 4)) / 4) * 4 + k % 4,
{
    let stride = width * 4;
    let q = k / stride;
    let r = k % stride;
    lemma_fundamental_div_mod(k, stride);
    lemma_fundamental_div_mod(r, 4);
    let rq = r / 4;
    let rr = r % 4;
    assert(k == q * stride + rq * 4 + rr) by (nonlinear_arith)
        requires
            k == stride * q + r,
            r == 4 * rq + rr,
    ;
    assert(q * stride + rq * 4 + rr == (q * width + rq) * 4 + rr) by (nonlinear_arith)
        requires
            stride == width * 4,
    ;
    lemma_fundamental_div_mod_converse(k, 4, q * width + rq, rr);
}

/// Draw a filled rectangle with alpha blending onto a BGRA frame: every
/// covered color byte becomes `(src * a + dst * (255 - a)) / 255` with the
/// color's alpha `a`; every other byte is left as it was.
pub fn draw_rect(
    frame: &mut Vec<u8>,
    width: u32,
    height: u32,
    x: u32,
    y: u32,
    w: u32,
    h: u32,
    color: [u8; 4],
)
    requires
        (height as int) * (width as int) * 4 + 4 <= usize::MAX,
        (width as int) * 4 <= usize::MAX,
    ensures
        final(frame)@.len() == old(frame)@.len(),
        forall|idx: int| 0 <= idx < old(frame)@.len() ==> #[trigger] final(frame)@[idx] == if rect_covers(
            idx,
            old(frame)@.len() as int,
            width,
            height,
            x,
            y,
            w,
            h,
        ) {
            blend_channel(color@[idx % 4], old(frame)@[idx], color@[3])
        } else {
            old(frame)@[idx]
        },
{
    let ghost old_frame = frame@;
    let ghost len = frame@.len() as int;
    let stride: usize = width as usize * 4;
    let alpha: u32 = color[3] as u32;
    let y_end: u32 = if y.saturating_add(h) < height { y.saturating_add(h) } else { height };
    let x_end: u32 = if x.saturating_add(w) < width { x.saturating_add(w) } else { width };
    assert(y_end == min_int(sat_add_u32(y, h), height as int));
    assert(x_end == min_int(sat_add_u32(x, w), width as int));
    let mut py: u32 = y;
    while py < y_end
        invariant
            frame@.len() == len,
            len == old_frame.len(),
            stride == width * 4,
            alpha == color@[3],
            (height as int) * (width as int) * 4 + 4 <= usize::MAX,
            y_end == min_int(sat_add_u32(y, h), height as int),
            x_end == min_int(sat_add_u32(x, w), width as int),
            y <= py || y_end <= py,
            forall|idx: int| 0 <= idx < len ==> #[trigger] frame@[idx] == if rect_covers(
                idx,
                len,
                width,
                height,
                x,
                y,
                w,
                h,
            ) && idx / (width * 4) < py {
                blend_channel(color@[idx % 4], old_frame[idx], color@[3])
            } else {
                old_frame[idx]
            },
        decreases y_end - py,
    {
        let mut px: u32 = x;
        while px < x_end
            invariant
                frame@.len() == len,
                len == old_frame.len(),
                stride == width * 4,
                alpha == color@[3],
                (height as int) * (width as int) * 4 + 4 <= usize::MAX,
                y_end == min_int(sat_add_u32(y, h), height as int),
                x_end == min_int(sat_add_u32(x, w), width as int),
                y <= py < y_end,
                x <= px || x_end <= px,
                forall|idx: int| 0 <= idx < len ==> #[trigger] frame@[idx] == if rect_covers(
                    idx,
                    len,
                    width,
                    height,
                    x,
                    y,
                    w,
                    h,
                ) && (idx / (width * 4) < py || (idx / (width * 4) == py && (idx % (width * 4))
                    / 4 < px)) {
                    blend_channel(color@[idx % 4], old_frame[idx], color@[3])
                } else {
                    old_frame[idx]
                },
            decreases x_end - px,
        {
            proof {
                assert((py as int) * (width as int) * 4 + (px as int) * 4 + 3 < (height as int)
                    * (width as int) * 4 + 4) by (nonlinear_arith)
                    requires
                        py < height,
                        px < width,
                ;
                assert((py as int) * (width as int) * 4 == (py as int) * (width * 4)) by (nonlinear_arith);
            }
            let base: usize = py as usize * stride + px as usize * 4;
            if base + 3 < frame.len() {
                let ghost before = frame@;
                let mut i: usize = 0;
                while i < 3
                    invariant
                        frame@.len() == len,
                        frame.len() == len,
                        base + 3 < len,
                        alpha == color@[3],
                        i <= 3,
                        forall|k: int| 0 <= k < len ==> #[trigger] frame@[k] == if base <= k < base
                            + i {
                            blend_channel(color@[k - base], before[k], color@[3])
                        } else {
                            before[k]
                        },
                    decreases 3 - i,
                {
                    let src = color[i] as u32;
                    let dst = frame[base + i] as u32;
                    proof {
                        assert(src * alpha <= 255 * 255) by (nonlinear_arith)
                            requires
                                src <= 255,
                                alpha <= 255,
                        ;
                        assert(dst * (255 - alpha) <= 255 * 255) by (nonlinear_arith)
                            requires
                                dst <= 255,
                                alpha <= 255,
                        ;
                        assert((src * alpha + dst * (255 - alpha)) / 255 <= 255) by (nonlinear_arith)
                            requires
                                src <= 255,
                                alpha <= 255,
                                dst <= 255,
                        ;
                    }
                    let v: u32 = (src * alpha + dst * (255 - alpha)) / 255;
                    frame.set(base + i, v as u8);
                    i = i + 1;
                }
                proof {
                    assert forall|k: int| 0 <= k < len implies #[trigger] frame@[k] == if rect_covers(
                        k,
                        len,
                        width,
                        height,
                        x,
                        y,
                        w,
                        h,
                    ) && (k / (width * 4) < py || (k / (width * 4) == py && (k % (width * 4)) / 4
                        < px + 1)) {
                        blend_channel(color@[k % 4], old_frame[k], color@[3])
                    } else {
                        old_frame[k]
                    } by {
                        if base <= k < base + 4 {
                            lemma_pixel_index(k, width as int, py as int, px as int, k - base);
                        } else {
                            let kpy = k / (width * 4);
                            let kpx = (k % (width * 4)) / 4;
                            if kpy == py && kpx == px {
                                let ch = k % 4;
                                lemma_decompose_index(k, width as int);
                            }
                        }
                    }
                }
            } else {
                proof {
                    assert forall|k: int| 0 <= k < len implies #[trigger] frame@[k] == if rect_covers(
                        k,
                        len,
                        width,
                        height,
                        x,
                        y,
                        w,
                        h,
                    ) && (k / (width * 4) < py || (k / (width * 4) == py && (k % (width * 4)) / 4
                        < px + 1)) {
                        blend_channel(color@[k % 4], old_frame[k], color@[3])
                    } else {
                        old_frame[k]
                    } by {
                        let kpy = k / (width * 4);
                        let kpx = (k % (width * 4)) / 4;
                        if kpy == py && kpx == px && rect_covers(k, len, width, height, x, y, w, h) {
                            assert(kpy * (width * 4) + kpx * 4 + 3 < len);
                            assert(kpy * (width * 4) + kpx * 4 == base) by (nonlinear_arith)
                                requires
                                    kpy == py,
                                    kpx == px,
                                    base == (py as int) * (width * 4) + (px as int) * 4,
                            ;
                        }
                    }
                }
            }
            px = px + 1;
        }
        proof {
            assert forall|k: int| 0 <= k < len implies #[trigger] frame@[k] == if rect_covers(
                k,
                len,
                width,
                height,
                x,
                y,
                w,
                h,
            ) && k / (width * 4) < py + 1 {
                blend_channel(color@[k % 4], old_frame[k], color@[3])
            } else {
                old_frame[k]
            } by {
                if rect_covers(k, len, width, height, x, y, w, h) && k / (width * 4) == py {
                    assert((k % (width * 4)) / 4 < x_end);
                }
            }
        }
        py = py + 1;
    }
}

} // verus!
