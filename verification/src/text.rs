//! Plain-text renderings of the machine for diagnostics: instruction words
//! in hexadecimal, a listing of memory, and a picture of the display.

use vstd::prelude::*;
use vstd::string::*;
use crate::machine::Machine;

verus! {

/// The upper-case hexadecimal digit for `d`.
pub open spec fn hex_digit_text(d: int) -> Seq<char> {
    if d == 0 {
        "0"@
    } else if d == 1 {
        "1"@
    } else if d == 2 {
        "2"@
    } else if d == 3 {
        "3"@
    } else if d == 4 {
        "4"@
    } else if d == 5 {
        "5"@
    } else if d == 6 {
        "6"@
    } else if d == 7 {
        "7"@
    } else if d == 8 {
        "8"@
    } else if d == 9 {
        "9"@
    } else if d == 10 {
        "A"@
    } else if d == 11 {
        "B"@
    } else if d == 12 {
        "C"@
    } else if d == 13 {
        "D"@
    } else if d == 14 {
        "E"@
    } else {
        "F"@
    }
}

/// `value` as `0x` and four upper-case hexadecimal digits.
pub open spec fn hex_word_text(value: u16) -> Seq<char> {
    "0x"@ + hex_digit_text(value as int / 4096) + hex_digit_text((value as int / 256) % 16)
        + hex_digit_text((value as int / 16) % 16) + hex_digit_text(value as int % 16)
}

/// The bytes of `memory` from `start` up to `end`, each as a hexadecimal
/// word followed by a space, with a line break behind every byte whose
/// address plus one is a multiple of `per_line`.
pub open spec fn cells_text(memory: Seq<u8>, start: int, end: int, per_line: int) -> Seq<char>
    decreases end - start,
{
    if end <= start {
        Seq::empty()
    } else {
        cells_text(memory, start, end - 1, per_line) + hex_word_text(memory[end - 1] as u16)
            + " "@ + if end % per_line == 0 {
            "\n"@
        } else {
            Seq::empty()
        }
    }
}

/// The listing of memory: the font, five bytes to a line, under its
/// heading, then the program area, eight bytes to a line, under its own.
pub open spec fn memory_listing_text(memory: Seq<u8>) -> Seq<char> {
    "0x000 to 0x050:\n"@ + cells_text(memory, 0, 80, 5) + "0x200 to 0xFFF:\n"@ + cells_text(
        memory,
        512,
        4096,
        8,
    )
}

/// The first `upto` pixels of display row `y`: `X` for a lit pixel, a space
/// for a dark one.
pub open spec fn row_text(framebuffer: Seq<bool>, y: int, upto: int) -> Seq<char>
    decreases upto,
{
    if upto <= 0 {
        Seq::empty()
    } else {
        row_text(framebuffer, y, upto - 1) + if framebuffer[y * 64 + upto - 1] {
            "X"@
        } else {
            " "@
        }
    }
}

/// The first `rows` rows of the display, each followed by a line break.
pub open spec fn rows_text(framebuffer: Seq<bool>, rows: int) -> Seq<char>
    decreases rows,
{
    if rows <= 0 {
        Seq::empty()
    } else {
        rows_text(framebuffer, rows - 1) + row_text(framebuffer, rows - 1, 64) + "\n"@
    }
}

/// The picture of the display: its 32 rows and an empty line.
pub open spec fn screen_text(framebuffer: Seq<bool>) -> Seq<char> {
    rows_text(framebuffer, 32) + "\n"@
}

/// The upper-case hexadecimal digit for `d`.
fn hex_digit(d: u16) -> (digit: &'static str)
    requires
        d < 16,
    ensures
        digit@ == hex_digit_text(d as int),
{
    match d {
        0 => "0",
        1 => "1",
        2 => "2",
        3 => "3",
        4 => "4",
        5 => "5",
        6 => "6",
        7 => "7",
        8 => "8",
        9 => "9",
        10 => "A",
        11 => "B",
        12 => "C",
        13 => "D",
        14 => "E",
        _ => "F",
    }
}

/// Appends `value` to `text` as `0x` and four hexadecimal digits.
fn append_hex_word(text: &mut String, value: u16)
    ensures
        final(text)@ == old(text)@ + hex_word_text(value),
{
    text.append("0x");
    text.append(hex_digit(value / 4096));
    text.append(hex_digit((value / 256) % 16));
    text.append(hex_digit((value / 16) % 16));
    text.append(hex_digit(value % 16));
}

/// `value` as `0x` and four upper-case hexadecimal digits, zeros included:
/// `0x00E0` for 224.
pub fn hex_word(value: u16) -> (text: String)
    ensures
        text@ == hex_word_text(value),
{
    let mut text = String::new();
    append_hex_word(&mut text, value);
    text
}

/// Appends the cells for the bytes of `memory` from `start` up to `end`.
fn append_cells(text: &mut String, memory: &[u8; 4096], start: usize, end: usize, per_line: usize)
    requires
        start <= end <= 4096,
        per_line > 0,
    ensures
        final(text)@ == old(text)@ + cells_text(memory@, start as int, end as int, per_line as int),
{
    let mut at: usize = start;
    while at < end
        invariant
            start <= at <= end <= 4096,
            per_line > 0,
            text@ == old(text)@ + cells_text(memory@, start as int, at as int, per_line as int),
        decreases end - at,
    {
        append_hex_word(text, memory[at] as u16);
        text.append(" ");
        at += 1;
        if at % per_line == 0 {
            text.append("\n");
        }
    }
}

impl Machine {
    /// The listing of memory: the font, then the program area.
    pub fn memory_listing(&self) -> (text: String)
        ensures
            text@ == memory_listing_text(self@.memory),
    {
        let mut text = String::new();
        text.append("0x000 to 0x050:\n");
        append_cells(&mut text, &self.memory, 0, 80, 5);
        text.append("0x200 to 0xFFF:\n");
        append_cells(&mut text, &self.memory, 512, 4096, 8);
        text
    }

    /// The picture of the display: one line for each row, `X` for a lit
    /// pixel and a space for a dark one, and an empty line below.
    pub fn screen(&self) -> (text: String)
        ensures
            text@ == screen_text(self@.framebuffer),
    {
        let mut text = String::new();
        let mut y: usize = 0;
        while y < 32
            invariant
                y <= 32,
                text@ == rows_text(self@.framebuffer, y as int),
            decreases 32 - y,
        {
            let mut x: usize = 0;
            while x < 64
                invariant
                    y < 32,
                    x <= 64,
                    text@ == rows_text(self@.framebuffer, y as int) + row_text(
                        self@.framebuffer,
                        y as int,
                        x as int,
                    ),
                decreases 64 - x,
            {
                if self.framebuffer[y * 64 + x] {
                    text.append("X");
                } else {
                    text.append(" ");
                }
                x += 1;
            }
            text.append("\n");
            y += 1;
        }
        text.append("\n");
        text
    }
}

} // verus!
