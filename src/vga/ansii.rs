//! Colour escape sequences recognised whole (`[31`, `[44`, ...).
use vstd::prelude::*;
use crate::vga_old::vga_buffer::{color_code_spec, Color, ColorCode};
use crate::vga_old::ansii::digit_color;

verus! {

/// The colours a whole sequence names: `[3d` a foreground on black, `[4d` a background
/// under white (`[40` is white on black); anything else white on black.
pub open spec fn sequence_colors(buf: Seq<u8>) -> (Color, Color) {
    if buf.len() == 3 && buf[0] == 0x5B && buf[1] == 0x33 && 0x30 <= buf[2] <= 0x37 {
        (digit_color(buf[2]), Color::Black)
    } else if buf.len() == 3 && buf[0] == 0x5B && buf[1] == 0x34 && 0x30 <= buf[2] <= 0x37 {
        if buf[2] == 0x30 {
            (Color::White, Color::Black)
        } else {
            (Color::White, digit_color(buf[2]))
        }
    } else {
        (Color::White, Color::Black)
    }
}

/// The colour attribute that a whole escape sequence names.
pub fn convert_ansii_to_color(buf: Vec<u8>) -> (r: ColorCode)
    ensures
        r == color_code_spec(sequence_colors(buf@).0, sequence_colors(buf@).1),
{
    if buf.len() != 3 || buf[0] != 0x5B || buf[2] < 0x30 || buf[2] > 0x37 {
        return ColorCode::new(Color::White, Color::Black);
    }
    let code = [buf[1], buf[2]];
    let c = crate::vga_old::ansii::convert_code_to_color(&code);
    assert(code@ =~= seq![buf@[1], buf@[2]]);
    if buf[1] == 0x33 {
        ColorCode::new(c, Color::Black)
    } else if buf[1] == 0x34 {
        if buf[2] == 0x30 {
            ColorCode::new(Color::White, Color::Black)
        } else {
            ColorCode::new(Color::White, c)
        }
    } else {
        ColorCode::new(Color::White, Color::Black)
    }
}

} // verus!
