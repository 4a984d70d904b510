//! The VGA text buffer: colours, and which cell a character goes to.

use vstd::prelude::*;

verus! {

/// Rows of the text buffer.
pub const ROWS: usize = 25;

/// Columns of the text buffer.
pub const COLS: usize = 80;

/// Colour in which a new device writes: green on black.
pub const DEFAULT_COLOR: u8 = 0x02;

/// The sixteen colours, in the order of their codes from 0 to 15.
#[derive(Clone, Copy, Debug, PartialEq, Eq, Structural)]
pub enum VgaColor {
    Black,
    Blue,
    Green,
    Cyan,
    Red,
    Magenta,
    Brown,
    Gray,
    DarkGray,
    BrightBlue,
    BrightGreen,
    BrightCyan,
    BrightRed,
    BrightMagenta,
    Yellow,
    White,
}

/// The code of a colour.
pub open spec fn color_code(color: VgaColor) -> u8 {
    match color {
        VgaColor::Black => 0x0,
        VgaColor::Blue => 0x1,
        VgaColor::Green => 0x2,
        VgaColor::Cyan => 0x3,
        VgaColor::Red => 0x4,
        VgaColor::Magenta => 0x5,
        VgaColor::Brown => 0x6,
        VgaColor::Gray => 0x7,
        VgaColor::DarkGray => 0x8,
        VgaColor::BrightBlue => 0x9,
        VgaColor::BrightGreen => 0xa,
        VgaColor::BrightCyan => 0xb,
        VgaColor::BrightRed => 0xc,
        VgaColor::BrightMagenta => 0xd,
        VgaColor::Yellow => 0xe,
        VgaColor::White => 0xf,
    }
}

impl VgaColor {
    /// The code of the colour.
    pub fn code(self) -> (res: u8)
        ensures
            res == color_code(self),
            res <= 0xf,
    {
        match self {
            VgaColor::Black => 0x0,
            VgaColor::Blue => 0x1,
            VgaColor::Green => 0x2,
            VgaColor::Cyan => 0x3,
            VgaColor::Red => 0x4,
            VgaColor::Magenta => 0x5,
            VgaColor::Brown => 0x6,
            VgaColor::Gray => 0x7,
            VgaColor::DarkGray => 0x8,
            VgaColor::BrightBlue => 0x9,
            VgaColor::BrightGreen => 0xa,
            VgaColor::BrightCyan => 0xb,
            VgaColor::BrightRed => 0xc,
            VgaColor::BrightMagenta => 0xd,
            VgaColor::Yellow => 0xe,
            VgaColor::White => 0xf,
        }
    }
    /// The colour with the given code, if the code is at most 15.
    pub fn from_code(code: u8) -> (res: Option<Self>)
        ensures
            res is Some <==> code <= 0xf,
            res is Some ==> color_code(res->0) == code,
    {
        match code {
            0x0 => Some(VgaColor::Black),
            0x1 => Some(VgaColor::Blue),
            0x2 => Some(VgaColor::Green),
            0x3 => Some(VgaColor::Cyan),
            0x4 => Some(VgaColor::Red),
            0x5 => Some(VgaColor::Magenta),
            0x6 => Some(VgaColor::Brown),
            0x7 => Some(VgaColor::Gray),
            0x8 => Some(VgaColor::DarkGray),
            0x9 => Some(VgaColor::BrightBlue),
            0xa => Some(VgaColor::BrightGreen),
            0xb => Some(VgaColor::BrightCyan),
            0xc => Some(VgaColor::BrightRed),
            0xd => Some(VgaColor::BrightMagenta),
            0xe => Some(VgaColor::Yellow),
            0xf => Some(VgaColor::White),
            _ => None,
        }
    }
}

/// One cell of the text buffer: a character and its colours, the text's
/// in the low four bits and the background's in the high four.
#[derive(Clone, Copy, Debug, PartialEq, Eq, Structural)]
pub struct VgaChar {
    pub c: u8,
    pub color: u8,
}

/// The two bytes of a cell as they lie in the buffer, read as one
/// little-endian word: the character below its colours.
pub open spec fn cell_word(cell: VgaChar) -> u16 {
    (cell.c as u16) | ((cell.color as u16) << 8)
}

impl VgaChar {
    /// The two bytes of the cell as they lie in the buffer, as one
    /// little-endian word.
    pub fn encode(&self) -> (res: u16)
        ensures
            res == cell_word(*self),
    {
        (self.c as u16) | ((self.color as u16) << 8)
    }
}

/// A cell to be written: its row and column, and what goes there.
#[derive(Clone, Copy, Debug, PartialEq, Eq, Structural)]
pub struct CellWrite {
    pub row: usize,
    pub col: usize,
    pub cell: VgaChar,
}

/// The state of the text device: the colours in which it writes, and a
/// cursor.
#[derive(Clone, Copy, Debug, PartialEq, Eq, Structural)]
pub struct VgaDevice {
    pub color: u8,
    pub row: usize,
    pub col: usize,
}

impl VgaDevice {
    /// A device that writes green on black, with its cursor at the top
    /// left.
    pub fn new() -> (res: Self)
        ensures
            res == (VgaDevice { color: DEFAULT_COLOR, row: 0, col: 0 }),
    {
        Self { color: DEFAULT_COLOR, row: 0, col: 0 }
    }

    /// Goes back to green on black.
    pub fn reset_color(&mut self)
        ensures
            *final(self) == (VgaDevice { color: DEFAULT_COLOR, ..*old(self) }),
    {
        self.color = DEFAULT_COLOR;
    }

    /// Sets the colour of the text and keeps that of the background.
    pub fn set_color(&mut self, color: VgaColor)
        ensures
            *final(self) == (VgaDevice {
                color: (old(self).color & 0xf0) | color_code(color),
                ..*old(self)
            }),
    {
        self.color = (self.color & 0xf0) | color.code();
    }

    /// Sets the colour of the background and keeps that of the text.
    pub fn set_background_color(&mut self, color: VgaColor)
        ensures
            *final(self) == (VgaDevice {
                color: (old(self).color & 0x0f) | (color_code(color) << 4),
                ..*old(self)
            }),
    {
        let code = color.code();
        assert(code << 4 <= 0xf0) by (bit_vector)
            requires
                code <= 0xf,
        ;
        self.color = (self.color & 0x0f) | (code << 4);
    }

    /// The cell that has to be written for `c` to show at `row` and `col`
    /// in the device's colours.
    pub fn write_char(&mut self, row: usize, col: usize, c: u8) -> (res: CellWrite)
        requires
            row < ROWS,
            col < COLS,
        ensures
            res == (CellWrite { row, col, cell: VgaChar { c, color: old(self).color } }),
            *final(self) == *old(self),
    {
        CellWrite { row, col, cell: VgaChar { c, color: self.color } }
    }
}

/// The low four bits of a colour byte are the text's colour and the high
/// four the background's; setting one leaves the other.
pub proof fn lemma_color_nibbles(byte: u8, code: u8)
    by (bit_vector)
    requires
        code <= 0xf,
    ensures
        ((byte & 0xf0) | code) & 0x0f == code,
        ((byte & 0xf0) | code) & 0xf0 == byte & 0xf0,
        ((byte & 0x0f) | (code << 4)) >> 4 == code,
        ((byte & 0x0f) | (code << 4)) & 0x0f == byte & 0x0f,
{
}

} // verus!
