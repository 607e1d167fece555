use vstd::prelude::*;

verus! {

/// Number of pixels in a row of the display.
pub const DISPLAY_WIDTH: u8 = 64;

/// Number of rows of the display.
pub const DISPLAY_HEIGHT: u8 = 32;

/// Number of pixels of the display.
pub const DISPLAY_SIZE: usize = 2048;

/// A display with every pixel off.
pub open spec fn blank_display() -> Seq<bool> {
    Seq::new(DISPLAY_SIZE as nat, |i: int| false)
}

/// Whether column `column` of a sprite row is set. A row is one byte; column 0
/// is its most significant bit.
pub open spec fn sprite_bit(row: u8, column: int) -> bool {
    0 <= column < 8 && (row >> ((7 - column) as u8)) & 1 == 1
}

/// Whether the sprite row `row`, placed in display row `py` with its leftmost
/// bit at column `x0`, has a set bit on the pixel with index `i` of the
/// row-major display.
pub open spec fn row_at(row: u8, x0: int, py: int, i: int) -> bool {
    i / (DISPLAY_WIDTH as int) == py && sprite_bit(row, i % (DISPLAY_WIDTH as int) - x0)
}

/// Whether the sprite `rows`, placed with its top-left corner at column `x0`
/// and row `y0`, has a set bit on the pixel with index `i` of the row-major
/// display. Only pixels of the display have an index: the part of a sprite that
/// lies beyond the right or the lower edge is cut off and does not come back on
/// the other side.
pub open spec fn sprite_at(rows: Seq<u8>, x0: int, y0: int, i: int) -> bool {
    let k = i / (DISPLAY_WIDTH as int) - y0;
    0 <= k < rows.len() && row_at(rows[k], x0, y0 + k, i)
}

/// The display after the sprite was drawn: every pixel under a set sprite bit
/// is flipped.
pub open spec fn drawn(display: Seq<bool>, rows: Seq<u8>, x0: int, y0: int) -> Seq<bool> {
    Seq::new(display.len(), |i: int| display[i] != sprite_at(rows, x0, y0, i))
}

/// Whether drawing the sprite switches a pixel off.
pub open spec fn collides(display: Seq<bool>, rows: Seq<u8>, x0: int, y0: int) -> bool {
    exists|i: int| 0 <= i < display.len() && display[i] && #[trigger] sprite_at(rows, x0, y0, i)
}

/// One sprite row drawn: every pixel under a set bit of the row is flipped.
pub open spec fn row_drawn(display: Seq<bool>, row: u8, x0: int, py: int) -> Seq<bool> {
    Seq::new(display.len(), |i: int| display[i] != row_at(row, x0, py, i))
}

/// Whether drawing one sprite row switches a pixel off.
pub open spec fn row_collides(display: Seq<bool>, row: u8, x0: int, py: int) -> bool {
    exists|i: int| 0 <= i < display.len() && display[i] && #[trigger] row_at(row, x0, py, i)
}

/// Draws one sprite row into `display`, from column `x0` of row `py` to the
/// right edge at most. Returns whether a pixel was switched off.
pub fn draw_row(display: &mut Vec<bool>, row: u8, x0: u8, py: u8) -> (collision: bool)
    requires
        old(display).len() == DISPLAY_SIZE,
        x0 < DISPLAY_WIDTH,
        py < DISPLAY_HEIGHT,
    ensures
        final(display)@ == row_drawn(old(display)@, row, x0 as int, py as int),
        collision == row_collides(old(display)@, row, x0 as int, py as int),
{
    let ghost before = display@;
    let base = py as usize * 64 + x0 as usize;
    let mut collision = false;
    let mut c: u8 = 0;
    while c < 8 && x0 + c < DISPLAY_WIDTH
        invariant
            c <= 8,
            x0 + c <= DISPLAY_WIDTH,
            py < DISPLAY_HEIGHT,
            base == py * 64 + x0,
            display.len() == DISPLAY_SIZE,
            before.len() == DISPLAY_SIZE,
            forall|i: int|
                0 <= i < DISPLAY_SIZE ==> display@[i] == (before[i] != (row_at(
                    row,
                    x0 as int,
                    py as int,
                    i,
                ) && i % 64 - x0 < c)),
            collision <==> exists|i: int|
                0 <= i < DISPLAY_SIZE && before[i] && #[trigger] row_at(row, x0 as int, py as int, i)
                    && i % 64 - x0 < c,
        decreases 8 - c,
    {
        let idx = base + c as usize;
        let bit = (row >> (7 - c)) & 1 == 1;
        assert(bit == sprite_bit(row, c as int));
        assert(idx / 64 == py && idx % 64 == x0 + c);
        let ghost earlier = collision;
        if bit {
            if display[idx] {
                display[idx] = false;
                collision = true;
            } else {
                display[idx] = true;
            }
        }
        proof {
            assert(bit ==> row_at(row, x0 as int, py as int, idx as int));
            assert forall|i: int| 0 <= i < DISPLAY_SIZE implies display@[i] == (before[i] != (
                row_at(row, x0 as int, py as int, i) && i % 64 - x0 < c + 1)) by {
                if i != idx && row_at(row, x0 as int, py as int, i) && i % 64 - x0 == c {
                    assert(i / 64 == py);
                    assert(i == 64 * (i / 64) + i % 64);
                }
            }
            if collision {
                if earlier {
                    let w = choose|i: int|
                        0 <= i < DISPLAY_SIZE && before[i] && #[trigger] row_at(
                            row,
                            x0 as int,
                            py as int,
                            i,
                        ) && i % 64 - x0 < c;
                    assert(row_at(row, x0 as int, py as int, w) && w % 64 - x0 < c + 1);
                } else {
                    assert(before[idx as int] && row_at(row, x0 as int, py as int, idx as int));
                }
            } else {
                assert forall|i: int|
                    0 <= i < DISPLAY_SIZE && before[i] && #[trigger] row_at(
                        row,
                        x0 as int,
                        py as int,
                        i,
                    ) implies !(i % 64 - x0 < c + 1) by {
                    if i % 64 - x0 == c {
                        assert(i / 64 == py);
                        assert(i == 64 * (i / 64) + i % 64);
                        assert(i == idx);
                    }
                }
            }
        }
        c += 1;
    }
    proof {
        assert forall|i: int| 0 <= i < DISPLAY_SIZE && row_at(
            row,
            x0 as int,
            py as int,
            i,
        ) implies i % 64 - x0 < c by {}
        assert(display@ =~= row_drawn(before, row, x0 as int, py as int));
    }
    collision
}

/// Rows that lie in different display rows never share a pixel, so drawing one
/// more row of a sprite is drawing that row onto what the rows before it left.
pub proof fn lemma_draw_next_row(display: Seq<bool>, rows: Seq<u8>, x0: int, y0: int, r: int)
    requires
        0 <= r < rows.len(),
        0 <= y0,
    ensures
        drawn(display, rows.take(r + 1), x0, y0) == row_drawn(
            drawn(display, rows.take(r), x0, y0),
            rows[r],
            x0,
            y0 + r,
        ),
        collides(display, rows.take(r + 1), x0, y0) == (collides(display, rows.take(r), x0, y0)
            || row_collides(drawn(display, rows.take(r), x0, y0), rows[r], x0, y0 + r)),
{
    let shorter = rows.take(r);
    let longer = rows.take(r + 1);
    let mid = drawn(display, shorter, x0, y0);
    assert forall|i: int| 0 <= i < display.len() implies sprite_at(longer, x0, y0, i) == (
        sprite_at(shorter, x0, y0, i) || row_at(rows[r], x0, y0 + r, i)) && !(sprite_at(
        shorter,
        x0,
        y0,
        i,
    ) && row_at(rows[r], x0, y0 + r, i)) by {
        let k = i / 64 - y0;
        if 0 <= k < r {
            assert(longer[k] == shorter[k]);
        }
    }
    assert(drawn(display, longer, x0, y0) =~= row_drawn(mid, rows[r], x0, y0 + r));
    if collides(display, longer, x0, y0) {
        let w = choose|i: int|
            0 <= i < display.len() && display[i] && #[trigger] sprite_at(longer, x0, y0, i);
        if sprite_at(shorter, x0, y0, w) {
        } else {
            assert(row_at(rows[r], x0, y0 + r, w));
            assert(mid[w]);
        }
    }
    if collides(display, shorter, x0, y0) {
        let w = choose|i: int|
            0 <= i < display.len() && display[i] && #[trigger] sprite_at(shorter, x0, y0, i);
        assert(sprite_at(longer, x0, y0, w));
    }
    if row_collides(mid, rows[r], x0, y0 + r) {
        let w = choose|i: int|
            0 <= i < mid.len() && mid[i] && #[trigger] row_at(rows[r], x0, y0 + r, i);
        assert(!sprite_at(shorter, x0, y0, w));
        assert(display[w]);
        assert(sprite_at(longer, x0, y0, w));
    }
}

/// Draws the sprite held in `count` cells of `memory` from `first` on into
/// `display`, with its top-left corner at column `x0`, row `y0`. Returns
/// whether a pixel was switched off.
pub fn draw_sprite(
    display: &mut Vec<bool>,
    memory: &Vec<u8>,
    first: usize,
    count: u8,
    x0: u8,
    y0: u8,
) -> (collision: bool)
    requires
        old(display).len() == DISPLAY_SIZE,
        x0 < DISPLAY_WIDTH,
        y0 + count <= DISPLAY_HEIGHT,
        first + count <= memory.len(),
    ensures
        final(display)@ == drawn(
            old(display)@,
            memory@.subrange(first as int, first + count),
            x0 as int,
            y0 as int,
        ),
        collision == collides(
            old(display)@,
            memory@.subrange(first as int, first + count),
            x0 as int,
            y0 as int,
        ),
{
    let ghost before = display@;
    let ghost sprite = memory@.subrange(first as int, first + count);
    let mut collision = false;
    let mut r: u8 = 0;
    proof {
        assert(display@ =~= drawn(before, sprite.take(0), x0 as int, y0 as int));
    }
    // One sprite row is one byte, that is 8 pixels.
    while r < count
        invariant
            r <= count,
            x0 < DISPLAY_WIDTH,
            y0 + count <= DISPLAY_HEIGHT,
            first + count <= memory.len(),
            sprite == memory@.subrange(first as int, first + count),
            display.len() == DISPLAY_SIZE,
            before.len() == DISPLAY_SIZE,
            display@ == drawn(before, sprite.take(r as int), x0 as int, y0 as int),
            collision == collides(before, sprite.take(r as int), x0 as int, y0 as int),
        decreases count - r,
    {
        let row = memory[first + r as usize];
        proof {
            assert(row == sprite[r as int]);
            lemma_draw_next_row(before, sprite, x0 as int, y0 as int, r as int);
        }
        let row_collision = draw_row(display, row, x0, y0 + r);
        collision = collision || row_collision;
        r += 1;
    }
    proof {
        assert(sprite.take(count as int) =~= sprite);
    }
    collision
}

} // verus!
