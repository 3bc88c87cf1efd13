//! Colour escape sequences (`[31;42`): each part sets the foreground (`3x`) or the
//! background (`4x`).
use vstd::prelude::*;
use crate::vga_old::vga_buffer::{color_code_spec, Color, ColorCode};

verus! {

/// The colour that the digit after `3` or `4` selects.
pub open spec fn digit_color(d: u8) -> Color {
    if d == 0x31 {
        Color::Red
    } else if d == 0x32 {
        Color::Green
    } else if d == 0x33 {
        Color::Yellow
    } else if d == 0x34 {
        Color::Blue
    } else if d == 0x35 {
        Color::Magenta
    } else if d == 0x36 {
        Color::Cyan
    } else if d == 0x37 {
        Color::White
    } else {
        Color::Black
    }
}

/// The colour a code (`30`..`37`, `40`..`47`) names; any other code names black.
pub open spec fn code_color(code: Seq<u8>) -> Color {
    if code.len() == 2 && (code[0] == 0x33 || code[0] == 0x34) {
        digit_color(code[1])
    } else {
        Color::Black
    }
}

/// Maps a colour code to its colour.
pub fn convert_code_to_color(color: &[u8]) -> (r: Color)
    ensures
        r == code_color(color@),
{
    if color.len() != 2 || (color[0] != 0x33 && color[0] != 0x34) {
        return Color::Black;
    }
    let d = color[1];
    if d == 0x31 {
        Color::Red
    } else if d == 0x32 {
        Color::Green
    } else if d == 0x33 {
        Color::Yellow
    } else if d == 0x34 {
        Color::Blue
    } else if d == 0x35 {
        Color::Magenta
    } else if d == 0x36 {
        Color::Cyan
    } else if d == 0x37 {
        Color::White
    } else {
        Color::Black
    }
}

/// The colours after one part: a part starting with `3` sets the foreground, one
/// starting with `4` the background.
pub open spec fn apply_part(fg: Color, bg: Color, part: Seq<u8>) -> (Color, Color) {
    if part.len() > 0 && part[0] == 0x33 {
        (code_color(part), bg)
    } else if part.len() > 0 && part[0] == 0x34 {
        (fg, code_color(part))
    } else {
        (fg, bg)
    }
}

/// After reading `s` (with `[` dropped and parts split at `;`): the colours so far and the
/// part being read.
pub open spec fn ansi_scan(s: Seq<u8>) -> (Color, Color, Seq<u8>)
    decreases s.len(),
{
    if s.len() == 0 {
        (Color::White, Color::Black, Seq::empty())
    } else {
        let (fg, bg, part) = ansi_scan(s.drop_last());
        let b = s.last();
        if b == 0x5B {
            (fg, bg, part)
        } else if b == 0x3B {
            let (f2, b2) = apply_part(fg, bg, part);
            (f2, b2, Seq::empty())
        } else {
            (fg, bg, part.push(b))
        }
    }
}

/// The colours a whole sequence selects, starting from white on black.
pub open spec fn ansi_colors(s: Seq<u8>) -> (Color, Color) {
    let (fg, bg, part) = ansi_scan(s);
    apply_part(fg, bg, part)
}

fn apply(fg: Color, bg: Color, part: &Vec<u8>) -> (r: (Color, Color))
    ensures
        r == apply_part(fg, bg, part@),
{
    if part.len() > 0 && part[0] == 0x33 {
        (convert_code_to_color(part.as_slice()), bg)
    } else if part.len() > 0 && part[0] == 0x34 {
        (fg, convert_code_to_color(part.as_slice()))
    } else {
        (fg, bg)
    }
}

/// The colour attribute that an escape sequence's parameters select: `[` is dropped,
/// the rest split at `;`, and each part applied in turn to white on black. An empty part
/// changes nothing.
pub fn convert_ansii_to_color(buf: Vec<u8>) -> (r: ColorCode)
    ensures
        r == color_code_spec(ansi_colors(buf@).0, ansi_colors(buf@).1),
{
    let mut fg = Color::White;
    let mut bg = Color::Black;
    let mut part: Vec<u8> = Vec::new();
    let mut i: usize = 0;
    while i < buf.len()
        invariant
            i <= buf@.len(),
            ansi_scan(buf@.subrange(0, i as int)) == (fg, bg, part@),
        decreases buf@.len() - i,
    {
        let b = buf[i];
        assert(buf@.subrange(0, i + 1).drop_last() =~= buf@.subrange(0, i as int));
        if b == 0x5B {
        } else if b == 0x3B {
            let (f2, b2) = apply(fg, bg, &part);
            fg = f2;
            bg = b2;
            part = Vec::new();
        } else {
            part.push(b);
        }
        i = i + 1;
    }
    assert(buf@.subrange(0, buf@.len() as int) =~= buf@);
    let (f, b) = apply(fg, bg, &part);
    ColorCode::new(f, b)
}

} // verus!
