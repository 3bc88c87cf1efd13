//! Colours of the VGA text buffer.
use vstd::prelude::*;
use vstd::string::{StrSliceExecFns, StringSliceAdditionalSpecFns};
use crate::vga_old::ansii::{ansi_colors, convert_ansii_to_color};

verus! {

/// The sixteen colours of VGA text mode.
#[derive(Debug, Clone, Copy, PartialEq, Eq, Structural)]
pub enum Color {
    Black,
    Blue,
    Green,
    Cyan,
    Red,
    Magenta,
    Brown,
    LightGray,
    DarkGray,
    LightBlue,
    LightGreen,
    LightCyan,
    LightRed,
    Pink,
    Yellow,
    White,
}

impl Color {
    /// The 4-bit code of the colour.
    pub open spec fn code_spec(self) -> u8 {
        match self {
            Color::Black => 0,
            Color::Blue => 1,
            Color::Green => 2,
            Color::Cyan => 3,
            Color::Red => 4,
            Color::Magenta => 5,
            Color::Brown => 6,
            Color::LightGray => 7,
            Color::DarkGray => 8,
            Color::LightBlue => 9,
            Color::LightGreen => 10,
            Color::LightCyan => 11,
            Color::LightRed => 12,
            Color::Pink => 13,
            Color::Yellow => 14,
            Color::White => 15,
        }
    }

    pub fn code(self) -> (r: u8)
        ensures
            r == self.code_spec(),
    {
        match self {
            Color::Black => 0,
            Color::Blue => 1,
            Color::Green => 2,
            Color::Cyan => 3,
            Color::Red => 4,
            Color::Magenta => 5,
            Color::Brown => 6,
            Color::LightGray => 7,
            Color::DarkGray => 8,
            Color::LightBlue => 9,
            Color::LightGreen => 10,
            Color::LightCyan => 11,
            Color::LightRed => 12,
            Color::Pink => 13,
            Color::Yellow => 14,
            Color::White => 15,
        }
    }
}

/// A colour attribute byte: background in the high nibble, foreground in the low one.
#[derive(Debug, Clone, Copy, PartialEq, Eq, Structural)]
pub struct ColorCode(pub u8);

pub open spec fn color_code_spec(foreground: Color, background: Color) -> ColorCode {
    ColorCode((background.code_spec() * 16 + foreground.code_spec()) as u8)
}

impl ColorCode {
    pub fn new(foreground: Color, background: Color) -> (r: ColorCode)
        ensures
            r == color_code_spec(foreground, background),
    {
        let b = background.code();
        let f = foreground.code();
        let v = (b << 4) | f;
        assert(v == b * 16 + f) by (bit_vector)
            requires
                v == (b << 4) | f,
                b < 16,
                f < 16,
        ;
        ColorCode(v)
    }
}


/// Rows and columns of the text screen.
pub const BUFFER_HEIGHT: usize = 25;
pub const BUFFER_WIDTH: usize = 80;
/// Cells of the screen, row after row.
pub const BUFFER_CELLS: usize = 2000;
/// Index of the first cell of the bottom row, where text is written.
pub const LAST_ROW_START: usize = 1920;

/// One cell of the screen: a character and its colours.
#[derive(Debug, Clone, Copy, PartialEq, Eq, Structural)]
pub struct ScreenChar {
    pub ascii_character: u8,
    pub color_code: ColorCode,
}

pub open spec fn blank(c: ColorCode) -> ScreenChar {
    ScreenChar { ascii_character: 0x20, color_code: c }
}

/// The screen after scrolling up one row: the bottom row becomes blank in colour `c`.
pub open spec fn scrolled(cells: Seq<ScreenChar>, c: ColorCode) -> Seq<ScreenChar> {
    Seq::new(BUFFER_CELLS as nat, |i: int| if i < LAST_ROW_START { cells[i + BUFFER_WIDTH] } else { blank(c) })
}

/// What a writer shows and remembers: the cells, the column of the cursor in the bottom
/// row, the current colours, the escape parameters read so far, and whether an escape
/// sequence is open.
pub type WriterView = (Seq<ScreenChar>, int, ColorCode, Seq<u8>, bool);

/// Writing one byte to the screen: a newline scrolls, a delete blanks the cell before the
/// cursor (if any), any other byte goes at the cursor, after scrolling when the row is full.
pub open spec fn put_byte(v: WriterView, b: u8) -> WriterView {
    let (cells, col, c, buf, esc) = v;
    if b == 0x0A {
        (scrolled(cells, c), 0, c, buf, esc)
    } else if b == 0x7F {
        if col > 0 {
            (cells.update(LAST_ROW_START + col - 1, blank(c)), col - 1, c, buf, esc)
        } else {
            v
        }
    } else {
        let (cells1, col1) = if col >= BUFFER_WIDTH { (scrolled(cells, c), 0) } else { (cells, col) };
        (cells1.update(LAST_ROW_START + col1, ScreenChar { ascii_character: b, color_code: c }), col1 + 1, c, buf, esc)
    }
}

/// One byte of an escape sequence: ESC opens it, `m` closes it and applies its colours,
/// anything else is a parameter byte.
pub open spec fn escape_byte(v: WriterView, b: u8) -> WriterView {
    let (cells, col, c, buf, esc) = v;
    if b == 0x1B {
        (cells, col, c, buf, true)
    } else if b == 0x6D {
        (cells, col, color_code_spec(ansi_colors(buf).0, ansi_colors(buf).1), Seq::empty(), false)
    } else {
        (cells, col, c, buf.push(b), esc)
    }
}

/// One byte of a string: ESC and, inside an escape sequence, printable bytes go to the
/// escape handling; printable bytes, newline and delete are written; anything else is
/// written as a square.
pub open spec fn string_byte(v: WriterView, b: u8) -> WriterView {
    if b == 0x1B {
        escape_byte(v, b)
    } else if (0x20 <= b <= 0x7E) || b == 0x0A || b == 0x7F {
        if v.4 { escape_byte(v, b) } else { put_byte(v, b) }
    } else {
        put_byte(v, 0xFE)
    }
}

/// The writer after the bytes `s`, one after the other.
pub open spec fn string_bytes(v: WriterView, s: Seq<u8>) -> WriterView
    decreases s.len(),
{
    if s.len() == 0 {
        v
    } else {
        string_byte(string_bytes(v, s.drop_last()), s.last())
    }
}

/// Text output to the bottom row of a 25 x 80 screen, with colour escape sequences.
pub struct Writer {
    column_position: usize,
    color_code: ColorCode,
    cells: Vec<ScreenChar>,
    color_buf: Vec<u8>,
    is_escaped: bool,
}

impl View for Writer {
    type V = WriterView;

    closed spec fn view(&self) -> WriterView {
        (self.cells@, self.column_position as int, self.color_code, self.color_buf@, self.is_escaped)
    }
}

impl Writer {
    pub closed spec fn wf(&self) -> bool {
        self.cells@.len() == BUFFER_CELLS && self.column_position <= BUFFER_WIDTH
    }

    /// A blank screen, white on black, with the cursor at the start of the bottom row.
    pub fn new() -> (r: Writer)
        ensures
            r.wf(),
            r@ == (Seq::new(BUFFER_CELLS as nat, |i: int| blank(color_code_spec(Color::White, Color::Black))), 0int,
                color_code_spec(Color::White, Color::Black), Seq::<u8>::empty(), false),
    {
        let c = ColorCode::new(Color::White, Color::Black);
        let mut cells: Vec<ScreenChar> = Vec::new();
        let mut i: usize = 0;
        while i < BUFFER_CELLS
            invariant
                i <= BUFFER_CELLS,
                cells@ == Seq::new(i as nat, |k: int| blank(c)),
            decreases BUFFER_CELLS - i,
        {
            cells.push(ScreenChar { ascii_character: 0x20, color_code: c });
            i = i + 1;
            assert(cells@ =~= Seq::new(i as nat, |k: int| blank(c)));
        }
        let r = Writer { column_position: 0, color_code: c, cells, color_buf: Vec::new(), is_escaped: false };
        assert(r.color_buf@ =~= Seq::<u8>::empty());
        r
    }

    /// The cell at `row`, `col`.
    pub fn char_at(&self, row: usize, col: usize) -> (r: ScreenChar)
        requires
            self.wf(),
            row < BUFFER_HEIGHT,
            col < BUFFER_WIDTH,
        ensures
            r == self@.0[row * BUFFER_WIDTH + col],
    {
        self.cells[row * BUFFER_WIDTH + col]
    }

    /// The column of the cursor in the bottom row.
    pub fn column(&self) -> (r: usize)
        ensures
            r == self@.1,
    {
        self.column_position
    }

    /// The current colours.
    pub fn color(&self) -> (r: ColorCode)
        ensures
            r == self@.2,
    {
        self.color_code
    }

    /// Handles one byte of an escape sequence.
    pub fn handle_escape(&mut self, byte: u8)
        requires
            old(self).wf(),
        ensures
            final(self).wf(),
            final(self)@ == escape_byte(old(self)@, byte),
    {
        if byte == 0x1B {
            self.is_escaped = true;
        } else if byte == 0x6D {
            self.is_escaped = false;
            let buf = self.take_color_buf();
            self.color_code = convert_ansii_to_color(buf);
        } else {
            self.color_buf.push(byte);
        }
    }

    fn take_color_buf(&mut self) -> (r: Vec<u8>)
        ensures
            r@ == old(self).color_buf@,
            final(self).color_buf@ == Seq::<u8>::empty(),
            final(self).cells == old(self).cells,
            final(self).column_position == old(self).column_position,
            final(self).color_code == old(self).color_code,
            final(self).is_escaped == old(self).is_escaped,
    {
        let mut empty: Vec<u8> = Vec::new();
        std::mem::swap(&mut empty, &mut self.color_buf);
        assert(self.color_buf@ =~= Seq::<u8>::empty());
        empty
    }

    /// Writes one byte at the cursor.
    pub fn write_byte(&mut self, byte: u8)
        requires
            old(self).wf(),
        ensures
            final(self).wf(),
            final(self)@ == put_byte(old(self)@, byte),
    {
        if byte == 0x0A {
            self.new_line();
        } else if byte == 0x7F {
            if self.column_position > 0 {
                self.column_position = self.column_position - 1;
                let blank_cell = ScreenChar { ascii_character: 0x20, color_code: self.color_code };
                self.cells.set(LAST_ROW_START + self.column_position, blank_cell);
            }
        } else {
            if self.column_position >= BUFFER_WIDTH {
                self.new_line();
            }
            let cell = ScreenChar { ascii_character: byte, color_code: self.color_code };
            self.cells.set(LAST_ROW_START + self.column_position, cell);
            self.column_position = self.column_position + 1;
        }
    }

    /// Writes a string, handling escape sequences.
    pub fn write_string(&mut self, s: &str)
        requires
            old(self).wf(),
        ensures
            final(self).wf(),
            final(self)@ == string_bytes(old(self)@, s.spec_bytes()),
    {
        let bytes = s.as_bytes_vec();
        let mut i: usize = 0;
        while i < bytes.len()
            invariant
                i <= bytes@.len(),
                self.wf(),
                self@ == string_bytes(old(self)@, bytes@.subrange(0, i as int)),
            decreases bytes@.len() - i,
        {
            let b = bytes[i];
            assert(bytes@.subrange(0, i + 1).drop_last() =~= bytes@.subrange(0, i as int));
            if b == 0x1B {
                self.handle_escape(b);
            } else if (0x20 <= b && b <= 0x7E) || b == 0x0A || b == 0x7F {
                if self.is_escaped {
                    self.handle_escape(b);
                } else {
                    self.write_byte(b);
                }
            } else {
                self.write_byte(0xFE);
            }
            i = i + 1;
        }
        assert(bytes@.subrange(0, bytes@.len() as int) =~= bytes@);
    }

    /// Back to white on black.
    pub fn clear_color(&mut self)
        requires
            old(self).wf(),
        ensures
            final(self).wf(),
            final(self)@ == (old(self)@.0, old(self)@.1, color_code_spec(Color::White, Color::Black), old(self)@.3, old(self)@.4),
    {
        self.color_code = ColorCode::new(Color::White, Color::Black);
    }

    /// Scrolls up one row and moves the cursor to the start of the blank bottom row.
    fn new_line(&mut self)
        requires
            old(self).wf(),
        ensures
            final(self).wf(),
            final(self)@ == (scrolled(old(self)@.0, old(self)@.2), 0int, old(self)@.2, old(self)@.3, old(self)@.4),
    {
        let mut i: usize = 0;
        while i < LAST_ROW_START
            invariant
                i <= LAST_ROW_START,
                self.cells@.len() == BUFFER_CELLS,
                self.color_code == old(self).color_code,
                self.color_buf == old(self).color_buf,
                self.is_escaped == old(self).is_escaped,
                forall|k: int| 0 <= k < i ==> self.cells@[k] == old(self).cells@[k + BUFFER_WIDTH],
                forall|k: int| i <= k < BUFFER_CELLS ==> self.cells@[k] == old(self).cells@[k],
            decreases LAST_ROW_START - i,
        {
            let moved = self.cells[i + BUFFER_WIDTH];
            self.cells.set(i, moved);
            i = i + 1;
        }
        self.clear_row(BUFFER_HEIGHT - 1);
        self.column_position = 0;
        assert(self.cells@ =~= scrolled(old(self).cells@, old(self).color_code));
    }

    /// Blanks row `row` in the current colours.
    fn clear_row(&mut self, row: usize)
        requires
            old(self).cells@.len() == BUFFER_CELLS,
            row < BUFFER_HEIGHT,
        ensures
            final(self).cells@.len() == BUFFER_CELLS,
            forall|k: int| 0 <= k < BUFFER_CELLS ==> #[trigger] final(self).cells@[k] == if row * BUFFER_WIDTH <= k < (row + 1) * BUFFER_WIDTH {
                blank(old(self).color_code)
            } else {
                old(self).cells@[k]
            },
            final(self).color_code == old(self).color_code,
            final(self).color_buf == old(self).color_buf,
            final(self).is_escaped == old(self).is_escaped,
            final(self).column_position == old(self).column_position,
    {
        let start = row * BUFFER_WIDTH;
        let cell = ScreenChar { ascii_character: 0x20, color_code: self.color_code };
        let mut col: usize = 0;
        while col < BUFFER_WIDTH
            invariant
                col <= BUFFER_WIDTH,
                start == row * BUFFER_WIDTH,
                row < BUFFER_HEIGHT,
                cell == blank(old(self).color_code),
                self.cells@.len() == BUFFER_CELLS,
                self.color_code == old(self).color_code,
                self.color_buf == old(self).color_buf,
                self.is_escaped == old(self).is_escaped,
                self.column_position == old(self).column_position,
                forall|k: int| 0 <= k < BUFFER_CELLS ==> #[trigger] self.cells@[k] == if start <= k < start + col {
                    blank(old(self).color_code)
                } else {
                    old(self).cells@[k]
                },
            decreases BUFFER_WIDTH - col,
        {
            self.cells.set(start + col, cell);
            col = col + 1;
        }
    }
}

} // verus!
