//! The display: how a sprite is laid over the framebuffer.
//!
//! A sprite is eight pixels wide and up to fifteen rows tall. Each row is one
//! byte of memory, read from the index register on, with the leftmost pixel
//! in the top bit. Drawing flips every framebuffer pixel under a set sprite
//! bit; the part of the sprite that would fall right of column 63 or below
//! row 31 is left out.

use vstd::prelude::*;
use crate::model::MachineState;

verus! {

/// Whether bit `col` of a sprite row is set, counting from the left.
pub open spec fn sprite_bit(row_bits: u8, col: int) -> bool {
    row_bits & (0x80u8 >> (col as u8)) != 0
}

/// Whether the sprite of `rows` rows at the index register, placed with its
/// top-left corner at column `x0`, row `y0`, has a set bit over pixel
/// `(px, py)` of the display.
pub open spec fn sprite_covers(
    s: MachineState,
    x0: int,
    y0: int,
    rows: int,
    px: int,
    py: int,
) -> bool {
    &&& x0 <= px < x0 + 8
    &&& y0 <= py < y0 + rows
    &&& px < 64
    &&& py < 32
    &&& sprite_bit(s.memory[s.index + (py - y0)], px - x0)
}

/// Whether the sprite flips framebuffer position `p`.
pub open spec fn flips(s: MachineState, x0: int, y0: int, rows: int, p: int) -> bool {
    sprite_covers(s, x0, y0, rows, p % 64, p / 64)
}

/// Whether drawing the sprite turns off the lit pixel at position `p`.
pub open spec fn erases(s: MachineState, x0: int, y0: int, rows: int, p: int) -> bool {
    0 <= p < 2048 && s.framebuffer[p] && flips(s, x0, y0, rows, p)
}

/// The framebuffer after the sprite is drawn: each pixel under a set sprite
/// bit is flipped, every other pixel is kept.
pub open spec fn drawn(s: MachineState, x0: int, y0: int, rows: int) -> Seq<bool> {
    Seq::new(2048, |p: int| s.framebuffer[p] != flips(s, x0, y0, rows, p))
}

/// Whether drawing the sprite turns off any lit pixel.
pub open spec fn collides(s: MachineState, x0: int, y0: int, rows: int) -> bool {
    exists|p: int| #[trigger] erases(s, x0, y0, rows, p)
}

/// Whether position `p` lies, within the sprite, before column `col` of row
/// `row`, reading the sprite row by row.
pub open spec fn reached(x0: int, y0: int, row: int, col: int, p: int) -> bool {
    p / 64 - y0 < row || (p / 64 - y0 == row && p % 64 - x0 < col)
}

/// The framebuffer with the sprite drawn as far as column `col` of row `row`.
pub open spec fn drawn_upto(
    s: MachineState,
    x0: int,
    y0: int,
    rows: int,
    row: int,
    col: int,
) -> Seq<bool> {
    Seq::new(
        2048,
        |p: int| s.framebuffer[p] != (flips(s, x0, y0, rows, p) && reached(x0, y0, row, col, p)),
    )
}

/// Whether drawing the sprite as far as column `col` of row `row` turns off
/// any lit pixel.
pub open spec fn collides_upto(
    s: MachineState,
    x0: int,
    y0: int,
    rows: int,
    row: int,
    col: int,
) -> bool {
    exists|p: int| #[trigger] erases(s, x0, y0, rows, p) && reached(x0, y0, row, col, p)
}

/// The number of sprite rows that fall on the display when the sprite's top
/// row is row `y0`.
pub open spec fn visible_rows(y0: int, rows: int) -> int {
    if y0 + rows <= 32 {
        rows
    } else {
        32 - y0
    }
}

} // verus!
