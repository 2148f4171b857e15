//! Sprites, and what drawing one does to the display.
//!
//! A sprite is a column of bytes. Each byte is one row of eight pixels, the
//! highest bit leftmost. Drawing flips the display pixel under every set bit;
//! coordinates wrap round both edges of the display.

use vstd::prelude::*;
use crate::constants::{SCREEN_HEIGHT, SCREEN_SIZE, SCREEN_WIDTH};

verus! {

/// Whether the bit for column `col` of a sprite row is set. Column 0 is the
/// leftmost pixel and the highest bit.
pub open spec fn sprite_bit(row: u8, col: int) -> bool {
    row & (0x80u8 >> (col as u8)) != 0
}

/// Position in the display's row-major storage of the pixel at `(x, y)`.
pub open spec fn pixel_index(x: int, y: int) -> int {
    x + SCREEN_WIDTH as int * y
}

/// Column of the sprite that lands on the display pixel `p` when the sprite is
/// drawn with its left edge at `x`: the distance to the right of `x`, round the
/// edge of the display.
pub open spec fn sprite_col_at(x: int, p: int) -> int {
    (p % (SCREEN_WIDTH as int) - x) % (SCREEN_WIDTH as int)
}

/// Row of the sprite that lands on the display pixel `p` when the sprite is
/// drawn with its top edge at `y`.
pub open spec fn sprite_row_at(y: int, p: int) -> int {
    (p / (SCREEN_WIDTH as int) - y) % (SCREEN_HEIGHT as int)
}

/// Whether drawing `rows` at `(x, y)` flips the display pixel `p`: a set bit of
/// the sprite lands on it.
pub open spec fn sprite_covers(rows: Seq<u8>, x: int, y: int, p: int) -> bool {
    let col = sprite_col_at(x, p);
    let row = sprite_row_at(y, p);
    col < 8 && row < rows.len() && sprite_bit(rows[row], col)
}

/// The part of [`sprite_covers`] that is due to the sprite's bits before
/// `(row_limit, col_limit)`, rows counted first: all rows above `row_limit`,
/// and the columns left of `col_limit` in that row.
pub(crate) open spec fn sprite_covers_before(
    rows: Seq<u8>,
    x: int,
    y: int,
    p: int,
    row_limit: int,
    col_limit: int,
) -> bool {
    let col = sprite_col_at(x, p);
    let row = sprite_row_at(y, p);
    sprite_covers(rows, x, y, p) && (row < row_limit || (row == row_limit && col < col_limit))
}

/// The display after `rows` was drawn at `(x, y)`: exactly the covered pixels
/// are flipped.
pub open spec fn draw_pixels(display: Seq<bool>, rows: Seq<u8>, x: int, y: int) -> Seq<bool> {
    Seq::new(display.len(), |p: int| display[p] != sprite_covers(rows, x, y, p))
}

/// Whether drawing `rows` at `(x, y)` switches off a pixel that was on.
pub open spec fn sprite_collides(display: Seq<bool>, rows: Seq<u8>, x: int, y: int) -> bool {
    exists|p: int| 0 <= p < display.len() && display[p] && #[trigger] sprite_covers(rows, x, y, p)
}

/// Whether drawing `rows` at `(x, y)` switches on a pixel that was off.
pub open spec fn sprite_lights(display: Seq<bool>, rows: Seq<u8>, x: int, y: int) -> bool {
    exists|p: int| 0 <= p < display.len() && !display[p] && #[trigger] sprite_covers(rows, x, y, p)
}

/// Whether the sprite's bits before `(row_limit, col_limit)` switch off a pixel
/// that was on; see [`sprite_covers_before`].
pub(crate) open spec fn sprite_collides_before(
    display: Seq<bool>,
    rows: Seq<u8>,
    x: int,
    y: int,
    row_limit: int,
    col_limit: int,
) -> bool {
    exists|p: int|
        0 <= p < display.len() && display[p] && #[trigger] sprite_covers_before(
            rows,
            x,
            y,
            p,
            row_limit,
            col_limit,
        )
}

/// Bit `col` of sprite row `row` lands on the pixel `col` to the right and
/// `row` below `(x, y)`, wrapped round the display's edges, and on no other.
pub proof fn lemma_sprite_covers_pixel(rows: Seq<u8>, x: int, y: int, row: int, col: int)
    requires
        0 <= x,
        0 <= y,
        0 <= row < rows.len() <= SCREEN_HEIGHT,
        0 <= col < 8,
    ensures
        ({
            let p = pixel_index((x + col) % (SCREEN_WIDTH as int), (y + row) % (SCREEN_HEIGHT as int));
            &&& 0 <= p < SCREEN_SIZE
            &&& sprite_col_at(x, p) == col
            &&& sprite_row_at(y, p) == row
            &&& sprite_covers(rows, x, y, p) == sprite_bit(rows[row], col)
        }),
{
}

/// The pixel that a sprite column and row land on is the only one with that
/// column and row.
pub proof fn lemma_covered_pixel_unique(x: int, y: int, p: int)
    requires
        0 <= x,
        0 <= y,
        0 <= p < SCREEN_SIZE,
    ensures
        p == pixel_index(
            (x + sprite_col_at(x, p)) % (SCREEN_WIDTH as int),
            (y + sprite_row_at(y, p)) % (SCREEN_HEIGHT as int),
        ),
        0 <= sprite_col_at(x, p) < SCREEN_WIDTH,
        0 <= sprite_row_at(y, p) < SCREEN_HEIGHT,
{
}

/// Drawing the same sprite twice at the same place gives back the display as
/// it was.
pub proof fn lemma_draw_twice_restores(display: Seq<bool>, rows: Seq<u8>, x: int, y: int)
    ensures
        draw_pixels(draw_pixels(display, rows, x, y), rows, x, y) == display,
{
    assert(draw_pixels(draw_pixels(display, rows, x, y), rows, x, y) =~= display);
}

/// The second of two equal draws collides exactly if the first one switched a
/// pixel on, and switches a pixel on exactly if the first one collided.
pub proof fn lemma_second_draw_collides(display: Seq<bool>, rows: Seq<u8>, x: int, y: int)
    ensures
        sprite_collides(draw_pixels(display, rows, x, y), rows, x, y) == sprite_lights(
            display,
            rows,
            x,
            y,
        ),
        sprite_lights(draw_pixels(display, rows, x, y), rows, x, y) == sprite_collides(
            display,
            rows,
            x,
            y,
        ),
{
    let drawn = draw_pixels(display, rows, x, y);
    if sprite_collides(drawn, rows, x, y) {
        let p = choose|p: int| 0 <= p < drawn.len() && drawn[p] && #[trigger] sprite_covers(rows, x, y, p);
        assert(!display[p] && sprite_covers(rows, x, y, p));
    }
    if sprite_lights(display, rows, x, y) {
        let p = choose|p: int| 0 <= p < display.len() && !display[p] && #[trigger] sprite_covers(rows, x, y, p);
        assert(drawn[p] && sprite_covers(rows, x, y, p));
    }
    if sprite_lights(drawn, rows, x, y) {
        let p = choose|p: int| 0 <= p < drawn.len() && !drawn[p] && #[trigger] sprite_covers(rows, x, y, p);
        assert(display[p] && sprite_covers(rows, x, y, p));
    }
    if sprite_collides(display, rows, x, y) {
        let p = choose|p: int| 0 <= p < display.len() && display[p] && #[trigger] sprite_covers(rows, x, y, p);
        assert(!drawn[p] && sprite_covers(rows, x, y, p));
    }
}

/// A sprite drawn at the display's last column continues at its first: the
/// leftmost bit of a row lands on column 63, the bit `col` places after it on
/// column `col - 1`, in the same display row.
pub proof fn lemma_sprite_wraps_horizontally(rows: Seq<u8>, y: int, row: int, col: int)
    requires
        0 <= y,
        0 <= row < rows.len() <= SCREEN_HEIGHT,
        1 <= col < 8,
    ensures
        ({
            let x = SCREEN_WIDTH as int - 1;
            let line = (y + row) % (SCREEN_HEIGHT as int);
            &&& sprite_covers(rows, x, y, pixel_index(x, line)) == sprite_bit(rows[row], 0)
            &&& sprite_covers(rows, x, y, pixel_index(col - 1, line)) == sprite_bit(rows[row], col)
        }),
{
    let x = SCREEN_WIDTH as int - 1;
    lemma_sprite_covers_pixel(rows, x, y, row, 0);
    lemma_sprite_covers_pixel(rows, x, y, row, col);
    assert((x + 0) % (SCREEN_WIDTH as int) == x);
    assert((x + col) % (SCREEN_WIDTH as int) == col - 1);
}

/// A sprite drawn past the display's last row continues at its first.
pub proof fn lemma_sprite_wraps_vertically(rows: Seq<u8>, x: int, row: int, col: int)
    requires
        0 <= x <= SCREEN_WIDTH - 8,
        1 <= row < rows.len() <= SCREEN_HEIGHT,
        0 <= col < 8,
    ensures
        ({
            let y = SCREEN_HEIGHT as int - 1;
            &&& sprite_covers(rows, x, y, pixel_index(x + col, y)) == sprite_bit(rows[0], col)
            &&& sprite_covers(rows, x, y, pixel_index(x + col, row - 1)) == sprite_bit(rows[row], col)
        }),
{
    let y = SCREEN_HEIGHT as int - 1;
    lemma_sprite_covers_pixel(rows, x, y, 0, col);
    lemma_sprite_covers_pixel(rows, x, y, row, col);
    assert((x + col) % (SCREEN_WIDTH as int) == x + col);
    assert((y + 0) % (SCREEN_HEIGHT as int) == y);
    assert((y + row) % (SCREEN_HEIGHT as int) == row - 1);
}

/// Taking one more bit of a row into account adds the pixel under that bit, if
/// the bit is set, and nothing else. That pixel was not covered before.
pub(crate) proof fn lemma_cover_next_bit(rows: Seq<u8>, x: int, y: int, p: int, row: int, col: int)
    requires
        0 <= x,
        0 <= y,
        0 <= p < SCREEN_SIZE,
        0 <= row < rows.len() <= SCREEN_HEIGHT,
        0 <= col < 8,
    ensures
        ({
            let target = pixel_index((x + col) % (SCREEN_WIDTH as int), (y + row) % (SCREEN_HEIGHT as int));
            &&& sprite_covers_before(rows, x, y, p, row, col + 1) == (sprite_covers_before(
                rows,
                x,
                y,
                p,
                row,
                col,
            ) || (p == target && sprite_bit(rows[row], col)))
            &&& p == target ==> !sprite_covers_before(rows, x, y, p, row, col)
        }),
{
}

/// A row taken in full is the same as the next row not yet begun, and the
/// whole sprite is all its rows taken in full.
pub(crate) proof fn lemma_cover_next_row(rows: Seq<u8>, x: int, y: int, p: int, row: int)
    requires
        0 <= row,
    ensures
        sprite_covers_before(rows, x, y, p, row, 8) == sprite_covers_before(rows, x, y, p, row + 1, 0),
        !sprite_covers_before(rows, x, y, p, 0, 0),
        sprite_covers_before(rows, x, y, p, rows.len() as int, 0) == sprite_covers(rows, x, y, p),
{
}

/// Taking one more bit of a row into account adds a collision exactly if the
/// bit is set and the pixel under it was on.
pub(crate) proof fn lemma_collides_next_bit(
    display: Seq<bool>,
    rows: Seq<u8>,
    x: int,
    y: int,
    row: int,
    col: int,
)
    requires
        display.len() == SCREEN_SIZE,
        0 <= x,
        0 <= y,
        0 <= row < rows.len() <= SCREEN_HEIGHT,
        0 <= col < 8,
    ensures
        ({
            let target = pixel_index((x + col) % (SCREEN_WIDTH as int), (y + row) % (SCREEN_HEIGHT as int));
            sprite_collides_before(display, rows, x, y, row, col + 1) == (sprite_collides_before(
                display,
                rows,
                x,
                y,
                row,
                col,
            ) || (sprite_bit(rows[row], col) && display[target]))
        }),
{
    let target = pixel_index((x + col) % (SCREEN_WIDTH as int), (y + row) % (SCREEN_HEIGHT as int));
    lemma_sprite_covers_pixel(rows, x, y, row, col);
    if sprite_collides_before(display, rows, x, y, row, col + 1) {
        let p = choose|p: int|
            0 <= p < display.len() && display[p] && #[trigger] sprite_covers_before(
                rows,
                x,
                y,
                p,
                row,
                col + 1,
            );
        lemma_cover_next_bit(rows, x, y, p, row, col);
    }
    if sprite_collides_before(display, rows, x, y, row, col) {
        let p = choose|p: int|
            0 <= p < display.len() && display[p] && #[trigger] sprite_covers_before(
                rows,
                x,
                y,
                p,
                row,
                col,
            );
        lemma_cover_next_bit(rows, x, y, p, row, col);
        assert(sprite_covers_before(rows, x, y, p, row, col + 1));
    }
    if sprite_bit(rows[row], col) && display[target] {
        lemma_cover_next_bit(rows, x, y, target, row, col);
        assert(sprite_covers_before(rows, x, y, target, row, col + 1));
    }
}

/// Collisions carry over from the end of one row to the start of the next;
/// there is none before the first bit, and those of all rows are those of the
/// sprite.
pub(crate) proof fn lemma_collides_next_row(display: Seq<bool>, rows: Seq<u8>, x: int, y: int, row: int)
    requires
        0 <= row,
    ensures
        sprite_collides_before(display, rows, x, y, row, 8) == sprite_collides_before(
            display,
            rows,
            x,
            y,
            row + 1,
            0,
        ),
        !sprite_collides_before(display, rows, x, y, 0, 0),
        sprite_collides_before(display, rows, x, y, rows.len() as int, 0) == sprite_collides(
            display,
            rows,
            x,
            y,
        ),
{
    assert forall|p: int|
        sprite_covers_before(rows, x, y, p, row, 8) == sprite_covers_before(
            rows,
            x,
            y,
            p,
            row + 1,
            0,
        ) && !sprite_covers_before(rows, x, y, p, 0, 0) && sprite_covers_before(
            rows,
            x,
            y,
            p,
            rows.len() as int,
            0,
        ) == sprite_covers(rows, x, y, p) by {
        lemma_cover_next_row(rows, x, y, p, row);
    }
    if sprite_collides_before(display, rows, x, y, row, 8) {
        let p = choose|p: int|
            0 <= p < display.len() && display[p] && #[trigger] sprite_covers_before(rows, x, y, p, row, 8);
        assert(sprite_covers_before(rows, x, y, p, row + 1, 0));
    }
    if sprite_collides_before(display, rows, x, y, row + 1, 0) {
        let p = choose|p: int|
            0 <= p < display.len() && display[p] && #[trigger] sprite_covers_before(
                rows,
                x,
                y,
                p,
                row + 1,
                0,
            );
        assert(sprite_covers_before(rows, x, y, p, row, 8));
    }
    if sprite_collides_before(display, rows, x, y, rows.len() as int, 0) {
        let p = choose|p: int|
            0 <= p < display.len() && display[p] && #[trigger] sprite_covers_before(
                rows,
                x,
                y,
                p,
                rows.len() as int,
                0,
            );
        assert(sprite_covers(rows, x, y, p));
    }
    if sprite_collides(display, rows, x, y) {
        let p = choose|p: int|
            0 <= p < display.len() && display[p] && #[trigger] sprite_covers(rows, x, y, p);
        assert(sprite_covers_before(rows, x, y, p, rows.len() as int, 0));
    }
}

} // verus!
