//! The sprite-draw model for the 64 x 32 monochrome display.
//!
//! A sprite is 8 bits wide and up to 15 rows tall.  Bit `c` of sprite row
//! `r` lands on the cell at column `(vx + c) mod 64` and row
//! `(vy + r) mod 32` of the display, and is combined with the old cell by
//! XOR.  Because the sprite is narrower than the display and shorter than
//! its height, each display cell is touched by at most one sprite bit, so
//! the whole draw can be described cell by cell: `hit_row`/`hit_col`
//! recover, for a display cell, which sprite bit lands on it, if any.

use vstd::prelude::*;
use vstd::arithmetic::div_mod::lemma_fundamental_div_mod;
use vstd::arithmetic::div_mod::lemma_fundamental_div_mod_converse;

verus! {

/// Display width in cells.
pub const DISPLAY_WIDTH: usize = 64;

/// Display height in cells.
pub const DISPLAY_HEIGHT: usize = 32;

/// Total number of display cells.
pub const DISPLAY_CELLS: usize = 64 * 32;

/// The display column that bit `c` of a sprite anchored at column `vx`
/// lands on: coordinates wrap around the display.
pub open spec fn wrap_col(vx: u8, c: int) -> int {
    (vx + c) % 64
}

/// The display row that row `r` of a sprite anchored at row `vy` lands on.
pub open spec fn wrap_row(vy: u8, r: int) -> int {
    (vy + r) % 32
}

/// Row-major index of the display cell hit by sprite bit (`r`, `c`).
pub open spec fn cell_index(vx: u8, vy: u8, r: int, c: int) -> int {
    wrap_row(vy, r) * 64 + wrap_col(vx, c)
}

/// Bit `c` (most-significant first) of sprite row `r`, read from memory at
/// address `i + r`.
pub open spec fn sprite_bit(mem: Seq<u8>, i: int, r: int, c: int) -> bool {
    (mem[i + r] >> ((7 - c) as u8)) % 2 == 1
}

/// The sprite row whose bits land on display row `idx / 64`, for a sprite
/// anchored at row `vy` (meaningful when that row is below the sprite
/// height).
pub open spec fn hit_row(vy: u8, idx: int) -> int {
    (idx / 64 - (vy as int) % 32 + 32) % 32
}

/// The sprite column whose bit lands on display column `idx % 64`, for a
/// sprite anchored at column `vx` (meaningful when it is below 8).
pub open spec fn hit_col(vx: u8, idx: int) -> int {
    (idx % 64 - (vx as int) % 64 + 64) % 64
}

/// The value of cell `idx` after the first `k` sprite bits (in row-major
/// order: bit `t` is row `t / 8`, column `t % 8`) have been XORed in.
pub open spec fn draw_cell_upto(
    display: Seq<bool>,
    mem: Seq<u8>,
    i: int,
    vx: u8,
    vy: u8,
    k: int,
    idx: int,
) -> bool {
    let r = hit_row(vy, idx);
    let c = hit_col(vx, idx);
    if c < 8 && 8 * r + c < k {
        display[idx] != sprite_bit(mem, i, r, c)
    } else {
        display[idx]
    }
}

/// The whole display after the first `k` sprite bits have been drawn.
pub open spec fn display_upto(
    display: Seq<bool>,
    mem: Seq<u8>,
    i: int,
    vx: u8,
    vy: u8,
    k: int,
) -> Seq<bool> {
    Seq::new(2048, |idx: int| draw_cell_upto(display, mem, i, vx, vy, k, idx))
}

/// The display after a full draw of an `n`-row sprite.
pub open spec fn draw_display(
    display: Seq<bool>,
    mem: Seq<u8>,
    i: int,
    vx: u8,
    vy: u8,
    n: u8,
) -> Seq<bool> {
    display_upto(display, mem, i, vx, vy, 8 * n)
}

/// Whether any of the first `k` sprite bits lands, set, on a lit cell
/// (the draw then turns that cell off: a collision).
pub open spec fn collision_upto(
    display: Seq<bool>,
    mem: Seq<u8>,
    i: int,
    vx: u8,
    vy: u8,
    k: int,
) -> bool {
    exists|t: int|
        0 <= t < k && #[trigger] sprite_bit(mem, i, t / 8, t % 8) && display[cell_index(
            vx,
            vy,
            t / 8,
            t % 8,
        )]
}

/// Whether a full draw of an `n`-row sprite turns any lit cell off.
pub open spec fn draw_collision(
    display: Seq<bool>,
    mem: Seq<u8>,
    i: int,
    vx: u8,
    vy: u8,
    n: u8,
) -> bool {
    collision_upto(display, mem, i, vx, vy, 8 * n)
}

/// Drawing XORs, so drawing the same sprite at the same position twice
/// restores every cell; and when the first draw ever turned a cell on, the
/// second draw finds that cell lit under a set sprite bit and so reports a
/// collision.
pub proof fn lemma_draw_twice_restores(
    display: Seq<bool>,
    mem: Seq<u8>,
    i: int,
    vx: u8,
    vy: u8,
    n: u8,
)
    requires
        display.len() == 2048,
        n < 16,
    ensures
        draw_display(draw_display(display, mem, i, vx, vy, n), mem, i, vx, vy, n) == display,
        (exists|idx: int|
            0 <= idx < 2048 && !display[idx] && draw_display(display, mem, i, vx, vy, n)[idx])
            ==> draw_collision(draw_display(display, mem, i, vx, vy, n), mem, i, vx, vy, n),
{
    let once = draw_display(display, mem, i, vx, vy, n);
    let twice = draw_display(once, mem, i, vx, vy, n);
    assert(twice =~= display);
    if exists|idx: int| 0 <= idx < 2048 && !display[idx] && once[idx] {
        let idx = choose|idx: int| 0 <= idx < 2048 && !display[idx] && once[idx];
        lemma_cell_index_complete(vx, vy, idx);
        let r = hit_row(vy, idx);
        let c = hit_col(vx, idx);
        assert(c < 8 && 8 * r + c < 8 * n && sprite_bit(mem, i, r, c));
        lemma_fundamental_div_mod_converse(8 * r + c, 8, r, c);
        assert(0 <= 8 * r + c < 8 * n && sprite_bit(mem, i, (8 * r + c) / 8, (8 * r + c) % 8)
            && once[cell_index(vx, vy, (8 * r + c) / 8, (8 * r + c) % 8)]);
    }
}

/// Wrapping by `m` and recovering the offset are inverse to each other:
/// `(w - a + m) % m == r` exactly when `w == (a + r) % m`, for `a`, `r`,
/// `w` all below `m`.
proof fn lemma_mod_inverse(a: int, r: int, w: int, m: int)
    requires
        0 <= a < m,
        0 <= r < m,
        0 <= w < m,
    ensures
        ((w - a + m) % m == r) <==> (w == (a + r) % m),
{
    if a + r < m {
        lemma_fundamental_div_mod_converse(a + r, m, 0, a + r);
    } else {
        lemma_fundamental_div_mod_converse(a + r, m, 1, a + r - m);
    }
    if w - a + m < m {
        lemma_fundamental_div_mod_converse(w - a + m, m, 0, w - a + m);
    } else {
        lemma_fundamental_div_mod_converse(w - a + m, m, 1, w - a);
    }
}

/// A value below `2 m` keeps its residue: `(a + r) % m` equals `a + r`,
/// reduced once if needed.
proof fn lemma_mod_once(x: int, m: int)
    requires
        0 < m,
        0 <= x < 2 * m,
    ensures
        x % m == if x < m {
            x
        } else {
            x - m
        },
{
    if x < m {
        lemma_fundamental_div_mod_converse(x, m, 0, x);
    } else {
        lemma_fundamental_div_mod_converse(x, m, 1, x - m);
    }
}

/// The cell hit by sprite bit (`r`, `c`) is in range, and `hit_row` /
/// `hit_col` recover `r` and `c` from it.
pub proof fn lemma_cell_index_inverse(vx: u8, vy: u8, r: int, c: int)
    requires
        0 <= r < 32,
        0 <= c < 64,
    ensures
        0 <= cell_index(vx, vy, r, c) < 2048,
        hit_row(vy, cell_index(vx, vy, r, c)) == r,
        hit_col(vx, cell_index(vx, vy, r, c)) == c,
{
    let a_row = (vy as int) % 32;
    let a_col = (vx as int) % 64;
    lemma_mod_once(a_row + r, 32);
    lemma_mod_once(a_col + c, 64);
    // `(vy + r) % 32 == (vy % 32 + r) % 32`, shown through the quotient of
    // `vy` by 32, and likewise for the column.
    lemma_fundamental_div_mod(vy as int, 32);
    lemma_fundamental_div_mod_converse(
        vy + r,
        32,
        (vy as int) / 32 + if a_row + r < 32 {
            0int
        } else {
            1int
        },
        (a_row + r) % 32,
    );
    lemma_fundamental_div_mod(vx as int, 64);
    lemma_fundamental_div_mod_converse(
        vx + c,
        64,
        (vx as int) / 64 + if a_col + c < 64 {
            0int
        } else {
            1int
        },
        (a_col + c) % 64,
    );
    let w = wrap_row(vy, r);
    let u = wrap_col(vx, c);
    assert(w == (a_row + r) % 32);
    assert(u == (a_col + c) % 64);
    let idx = cell_index(vx, vy, r, c);
    lemma_fundamental_div_mod_converse(idx, 64, w, u);
    lemma_mod_inverse(a_row, r, w, 32);
    lemma_mod_inverse(a_col, c, u, 64);
}

/// Every display cell is reached from exactly one (row, column) pair:
/// `hit_row` and `hit_col` name it, and `cell_index` maps it back.
pub proof fn lemma_cell_index_complete(vx: u8, vy: u8, idx: int)
    requires
        0 <= idx < 2048,
    ensures
        0 <= hit_row(vy, idx) < 32,
        0 <= hit_col(vx, idx) < 64,
        cell_index(vx, vy, hit_row(vy, idx), hit_col(vx, idx)) == idx,
{
    let a_row = (vy as int) % 32;
    let a_col = (vx as int) % 64;
    lemma_fundamental_div_mod(idx, 64);
    let w = idx / 64;
    let u = idx % 64;
    assert(0 <= u < 64) by {
        lemma_fundamental_div_mod_converse(idx, 64, idx / 64, idx % 64);
    }
    assert(0 <= w < 32);
    lemma_mod_once(w - a_row + 32, 32);
    lemma_mod_once(u - a_col + 64, 64);
    let r = hit_row(vy, idx);
    let c = hit_col(vx, idx);
    lemma_mod_inverse(a_row, r, w, 32);
    lemma_mod_inverse(a_col, c, u, 64);
    // `wrap_row(vy, r) == w` and `wrap_col(vx, c) == u` follow as above.
    lemma_mod_once(a_row + r, 32);
    lemma_fundamental_div_mod(vy as int, 32);
    lemma_fundamental_div_mod_converse(
        vy + r,
        32,
        (vy as int) / 32 + if a_row + r < 32 {
            0int
        } else {
            1int
        },
        (a_row + r) % 32,
    );
    lemma_mod_once(a_col + c, 64);
    lemma_fundamental_div_mod(vx as int, 64);
    lemma_fundamental_div_mod_converse(
        vx + c,
        64,
        (vx as int) / 64 + if a_col + c < 64 {
            0int
        } else {
            1int
        },
        (a_col + c) % 64,
    );
}

} // verus!
