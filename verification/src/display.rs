//! The display: a grid of cells, and sprites drawn onto it by exclusive or.

use vstd::prelude::*;

verus! {

pub const DISPLAY_MAX_X: usize = 64;
pub const DISPLAY_MAX_Y: usize = 32;
pub const DISPLAY_CELLS: usize = 2048;

/// The place of the cell in column `x` of row `y` in the display, which is
/// held row by row.
pub open spec fn cell_index(x: int, y: int) -> int {
    y * 64 + x
}

/// Whether the pixel in column `col` of a sprite row is set; column 0 is the
/// leftmost and is the byte's most significant bit.
pub open spec fn sprite_bit(byte: u8, col: u8) -> bool {
    byte & (0x80u8 >> col) != 0
}

/// The sprite column that falls on display column `cx` when the sprite's
/// left edge is at `x0`, columns wrapping around the display.
pub open spec fn sprite_col(cx: int, x0: int) -> int {
    (cx - x0) % 64
}

/// The sprite row that falls on display row `cy` when the sprite's top edge
/// is at `y0`, rows wrapping around the display.
pub open spec fn sprite_row(cy: int, y0: int) -> int {
    (cy - y0) % 32
}

/// Whether the sprite, drawn with its top left corner at (`x0`, `y0`), has a
/// set pixel on cell `k` of the display.
pub open spec fn sprite_pixel(sprite: Seq<u8>, x0: int, y0: int, k: int) -> bool {
    let c = sprite_col(k % 64, x0);
    let r = sprite_row(k / 64, y0);
    c < 8 && r < sprite.len() && sprite_bit(sprite[r], c as u8)
}

/// The display after the sprite has been drawn onto it: every cell under a
/// set pixel is flipped, every other cell is kept.
pub open spec fn draw_display(display: Seq<bool>, sprite: Seq<u8>, x0: int, y0: int) -> Seq<bool> {
    Seq::new(display.len(), |k: int| display[k] ^ sprite_pixel(sprite, x0, y0, k))
}

/// Whether drawing the sprite turns a lit cell off.
pub open spec fn draw_collides(display: Seq<bool>, sprite: Seq<u8>, x0: int, y0: int) -> bool {
    exists|k: int| 0 <= k < display.len() && display[k] && #[trigger] sprite_pixel(sprite, x0, y0, k)
}

/// The part of `sprite_pixel` that lies in rows before `rows_done`, or in row
/// `rows_done` before column `cols_done`.
spec fn pixel_done(sprite: Seq<u8>, x0: int, y0: int, k: int, rows_done: int, cols_done: int) -> bool {
    let c = sprite_col(k % 64, x0);
    let r = sprite_row(k / 64, y0);
    sprite_pixel(sprite, x0, y0, k) && (r < rows_done || (r == rows_done && c < cols_done))
}

spec fn collides_done(
    display: Seq<bool>,
    sprite: Seq<u8>,
    x0: int,
    y0: int,
    rows_done: int,
    cols_done: int,
) -> bool {
    exists|k: int|
        0 <= k < display.len() && display[k] && #[trigger] pixel_done(
            sprite,
            x0,
            y0,
            k,
            rows_done,
            cols_done,
        )
}

/// The cell under pixel (`r`, `c`) of the sprite is the only one that this
/// pixel falls on.
proof fn lemma_cell_of_pixel(x0: int, y0: int, r: int, c: int, k: int)
    requires
        0 <= x0 < 256,
        0 <= y0 < 256,
        0 <= r < 32,
        0 <= c < 64,
        0 <= k < 2048,
    ensures
        (sprite_col(k % 64, x0) == c && sprite_row(k / 64, y0) == r) <==> k == cell_index(
            (x0 + c) % 64,
            (y0 + r) % 32,
        ),
{
}

/// The `rows` bytes of memory from `start` on; nothing where `rows` is 0.
pub open spec fn sprite_at(ram: Seq<u8>, start: int, rows: int) -> Seq<u8> {
    if rows <= 0 {
        Seq::empty()
    } else {
        ram.subrange(start, start + rows)
    }
}

/// Draws the sprite held in the `rows` bytes of `ram` from `start` on, with
/// its top left corner at (`x0`, `y0`), and says whether a lit cell was
/// turned off.
pub fn draw_sprite(
    display: &mut [bool; 2048],
    ram: &[u8; 4096],
    start: usize,
    rows: usize,
    x0: u8,
    y0: u8,
) -> (collision: bool)
    requires
        rows < 32,
        rows == 0 || start + rows <= 4096,
    ensures
        final(display)@ == draw_display(
            old(display)@,
            sprite_at(ram@, start as int, rows as int),
            x0 as int,
            y0 as int,
        ),
        collision == draw_collides(
            old(display)@,
            sprite_at(ram@, start as int, rows as int),
            x0 as int,
            y0 as int,
        ),
    no_unwind
{
    let ghost sprite = sprite_at(ram@, start as int, rows as int);
    let ghost before = display@;
    let mut collision = false;
    let mut r: usize = 0;
    while r < rows
        invariant
            r <= rows < 32,
            sprite == sprite_at(ram@, start as int, rows as int),
            sprite.len() == rows,
            rows == 0 || start + rows <= 4096,
            before.len() == 2048,
            forall|k: int|
                0 <= k < 2048 ==> display@[k] == (before[k] ^ pixel_done(
                    sprite,
                    x0 as int,
                    y0 as int,
                    k,
                    r as int,
                    0,
                )),
            collision == collides_done(before, sprite, x0 as int, y0 as int, r as int, 0),
        decreases rows - r,
    {
        let byte = ram[start + r];
        let cy = (y0 as usize + r) % 32;
        let mut c: u8 = 0;
        while c < 8
            invariant
                r < rows < 32,
                sprite.len() == rows,
                c <= 8,
                byte == sprite[r as int],
                cy == (y0 + r) % 32,
                before.len() == 2048,
                forall|k: int|
                    0 <= k < 2048 ==> display@[k] == (before[k] ^ pixel_done(
                        sprite,
                        x0 as int,
                        y0 as int,
                        k,
                        r as int,
                        c as int,
                    )),
                collision == collides_done(before, sprite, x0 as int, y0 as int, r as int, c as int),
            decreases 8 - c,
        {
            let cx = (x0 as usize + c as usize) % 64;
            let cell = cy * 64 + cx;
            let lit = byte & (0x80u8 >> c) != 0;
            let prev = display[cell];
            proof {
                assert forall|k: int| 0 <= k < 2048 implies pixel_done(
                    sprite,
                    x0 as int,
                    y0 as int,
                    k,
                    r as int,
                    c + 1,
                ) == (pixel_done(sprite, x0 as int, y0 as int, k, r as int, c as int) || (k == cell
                    && lit)) by {
                    lemma_cell_of_pixel(x0 as int, y0 as int, r as int, c as int, k);
                }
                assert(prev == before[cell as int]) by {
                    lemma_cell_of_pixel(x0 as int, y0 as int, r as int, c as int, cell as int);
                }
                if collides_done(before, sprite, x0 as int, y0 as int, r as int, c + 1) {
                    let k = choose|k: int|
                        0 <= k < before.len() && before[k] && #[trigger] pixel_done(
                            sprite,
                            x0 as int,
                            y0 as int,
                            k,
                            r as int,
                            c + 1,
                        );
                    if k != cell {
                        assert(pixel_done(sprite, x0 as int, y0 as int, k, r as int, c as int));
                    }
                }
                if collides_done(before, sprite, x0 as int, y0 as int, r as int, c as int) {
                    let k = choose|k: int|
                        0 <= k < before.len() && before[k] && #[trigger] pixel_done(
                            sprite,
                            x0 as int,
                            y0 as int,
                            k,
                            r as int,
                            c as int,
                        );
                    assert(pixel_done(sprite, x0 as int, y0 as int, k, r as int, c + 1));
                }
                if prev && lit {
                    assert(pixel_done(sprite, x0 as int, y0 as int, cell as int, r as int, c + 1));
                }
            }
            display[cell] = prev ^ lit;
            if prev && lit {
                collision = true;
            }
            c += 1;
        }
        proof {
            assert forall|k: int| 0 <= k < 2048 implies pixel_done(
                sprite,
                x0 as int,
                y0 as int,
                k,
                r as int,
                8,
            ) == pixel_done(sprite, x0 as int, y0 as int, k, r + 1, 0) by {}
            assert(collides_done(before, sprite, x0 as int, y0 as int, r as int, 8)
                == collides_done(before, sprite, x0 as int, y0 as int, r + 1, 0)) by {
                if collides_done(before, sprite, x0 as int, y0 as int, r as int, 8) {
                    let k = choose|k: int|
                        0 <= k < before.len() && before[k] && #[trigger] pixel_done(
                            sprite,
                            x0 as int,
                            y0 as int,
                            k,
                            r as int,
                            8,
                        );
                    assert(pixel_done(sprite, x0 as int, y0 as int, k, r + 1, 0));
                }
                if collides_done(before, sprite, x0 as int, y0 as int, r + 1, 0) {
                    let k = choose|k: int|
                        0 <= k < before.len() && before[k] && #[trigger] pixel_done(
                            sprite,
                            x0 as int,
                            y0 as int,
                            k,
                            r + 1,
                            0,
                        );
                    assert(pixel_done(sprite, x0 as int, y0 as int, k, r as int, 8));
                }
            }
        }
        r += 1;
    }
    proof {
        let n = sprite.len() as int;
        assert forall|k: int| 0 <= k < 2048 implies pixel_done(
            sprite,
            x0 as int,
            y0 as int,
            k,
            n,
            0,
        ) == sprite_pixel(sprite, x0 as int, y0 as int, k) by {}
        assert(display@ =~= draw_display(before, sprite, x0 as int, y0 as int));
        if collides_done(before, sprite, x0 as int, y0 as int, n, 0) {
            let k = choose|k: int|
                0 <= k < before.len() && before[k] && #[trigger] pixel_done(
                    sprite,
                    x0 as int,
                    y0 as int,
                    k,
                    n,
                    0,
                );
            assert(sprite_pixel(sprite, x0 as int, y0 as int, k));
        }
        if draw_collides(before, sprite, x0 as int, y0 as int) {
            let k = choose|k: int|
                0 <= k < before.len() && before[k] && #[trigger] sprite_pixel(
                    sprite,
                    x0 as int,
                    y0 as int,
                    k,
                );
            assert(pixel_done(sprite, x0 as int, y0 as int, k, n, 0));
        }
    }
    collision
}

} // verus!
