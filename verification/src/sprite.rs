//! Sprites and what drawing one does to the framebuffer.
//!
//! A sprite is a sequence of rows, one byte each, the most significant bit
//! leftmost. Drawing toggles the pixels under its set bits; columns wrap at
//! 64 and rows at 32.

use vstd::prelude::*;
use vstd::arithmetic::div_mod::lemma_fundamental_div_mod_converse;

verus! {

/// The `n` bytes of memory from address `at` on, as the rows of a sprite.
pub open spec fn sprite_at(mem: Seq<u8>, at: int, n: int) -> Seq<u8> {
    Seq::new(n as nat, |k: int| mem[at + k])
}

/// Whether bit `col` of a sprite row, counted from the left, is set.
pub open spec fn sprite_bit(row: u8, col: int) -> bool {
    (row >> ((7 - col) as u8)) & 1 == 1
}

/// How many columns pixel `p` lies to the right of column `vx`, wrapping.
pub open spec fn col_offset(p: int, vx: u8) -> int {
    (p % 64 - vx) % 64
}

/// How many rows pixel `p` lies below row `vy`, wrapping.
pub open spec fn row_offset(p: int, vy: u8) -> int {
    (p / 64 - vy) % 32
}

/// Whether the sprite drawn at column `vx`, row `vy` has a set bit over
/// pixel `p`.
pub open spec fn sprite_lit(sprite: Seq<u8>, vx: u8, vy: u8, p: int) -> bool {
    let dc = col_offset(p, vx);
    let dr = row_offset(p, vy);
    dc < 8 && dr < sprite.len() && sprite_bit(sprite[dr], dc)
}

/// The framebuffer after the sprite is drawn: each pixel under a set bit
/// changes, every other pixel stays.
pub open spec fn drawn(vram: Seq<bool>, sprite: Seq<u8>, vx: u8, vy: u8) -> Seq<bool> {
    Seq::new(vram.len(), |p: int| vram[p] != sprite_lit(sprite, vx, vy, p))
}

/// Whether drawing the sprite switches any pixel from on to off.
pub open spec fn collides(vram: Seq<bool>, sprite: Seq<u8>, vx: u8, vy: u8) -> bool {
    exists|p: int| 0 <= p < vram.len() && vram[p] && #[trigger] sprite_lit(sprite, vx, vy, p)
}

/// The pixel under bit `col` of row `row` of a sprite drawn at column `vx`,
/// row `vy`.
pub open spec fn target(vx: u8, vy: u8, row: int, col: int) -> int {
    ((vy + row) % 32) * 64 + (vx + col) % 64
}

/// Whether the sprite has a set bit over pixel `p` in a row above `row`, or
/// in row `row` left of column `col`: the part of the sprite that a draw
/// has dealt with when it reaches that bit.
spec fn sprite_lit_before(
    sprite: Seq<u8>,
    vx: u8,
    vy: u8,
    row: int,
    col: int,
    p: int,
) -> bool {
    let dc = col_offset(p, vx);
    let dr = row_offset(p, vy);
    sprite_lit(sprite, vx, vy, p) && (dr < row || (dr == row && dc < col))
}

/// Each bit of a sprite has a pixel of its own on the screen: the target
/// lies on the screen, and its offsets from the sprite's corner are the
/// bit's row and column.
pub proof fn lemma_target_offsets(vx: u8, vy: u8, row: int, col: int)
    requires
        0 <= row < 32,
        0 <= col < 64,
    ensures
        0 <= target(vx, vy, row, col) < 2048,
        col_offset(target(vx, vy, row, col), vx) == col,
        row_offset(target(vx, vy, row, col), vy) == row,
{
    let c = (vx + col) % 64;
    let r = (vy + row) % 32;
    let qc = (vx + col) / 64;
    let qr = (vy + row) / 32;
    lemma_fundamental_div_mod_converse(r * 64 + c, 64, r, c);
    lemma_fundamental_div_mod_converse(c - vx, 64, -qc, col);
    lemma_fundamental_div_mod_converse(r - vy, 32, -qr, row);
}

/// A pixel is the target of the bit at its own offsets, and of no other.
pub proof fn lemma_offsets_target(vx: u8, vy: u8, p: int)
    requires
        0 <= p < 2048,
    ensures
        0 <= row_offset(p, vy) < 32,
        0 <= col_offset(p, vx) < 64,
        target(vx, vy, row_offset(p, vy), col_offset(p, vx)) == p,
{
    let c = p % 64;
    let r = p / 64;
    let kc = (c - vx) / 64;
    let kr = (r - vy) / 32;
    lemma_fundamental_div_mod_converse(vx + col_offset(p, vx), 64, -kc, c);
    lemma_fundamental_div_mod_converse(vy + row_offset(p, vy), 32, -kr, r);
}

/// Reads bit `col` of a sprite row, counted from the left.
pub fn bit_at(row: u8, col: usize) -> (b: bool)
    requires
        col < 8,
    ensures
        b == sprite_bit(row, col as int),
{
    (row >> ((7 - col) as u8)) & 1 == 1
}

/// Whether the part of the sprite that precedes the bit at `row`, `col`
/// lies over a pixel that is on.
spec fn collides_before(
    vram: Seq<bool>,
    sprite: Seq<u8>,
    vx: u8,
    vy: u8,
    row: int,
    col: int,
) -> bool {
    exists|p: int|
        0 <= p < vram.len() && vram[p] && #[trigger] sprite_lit_before(sprite, vx, vy, row, col, p)
}

/// Draws the `n`-row sprite stored at `mem[at..at + n]` at column `vx`,
/// row `vy`: every pixel under a set bit is toggled, with columns wrapping
/// at 64 and rows at 32. Returns whether any pixel went from on to off.
pub fn draw_sprite(
    vram: &mut [bool; 2048],
    mem: &[u8; 4096],
    at: usize,
    n: usize,
    vx: u8,
    vy: u8,
) -> (hit: bool)
    requires
        n <= 32,
        at + n <= 4096,
    ensures
        final(vram)@ == drawn(old(vram)@, sprite_at(mem@, at as int, n as int), vx, vy),
        hit == collides(old(vram)@, sprite_at(mem@, at as int, n as int), vx, vy),
{
    let ghost sprite = sprite_at(mem@, at as int, n as int);
    let ghost before = vram@;
    let mut hit = false;
    for row in 0..n
        invariant
            n <= 32,
            at + n <= 4096,
            sprite == sprite_at(mem@, at as int, n as int),
            before.len() == 2048,
            forall|p: int|
                0 <= p < 2048 ==> vram@[p] == (before[p] != sprite_lit_before(
                    sprite,
                    vx,
                    vy,
                    row as int,
                    0,
                    p,
                )),
            hit == collides_before(before, sprite, vx, vy, row as int, 0),
    {
        let byte = mem[at + row];
        let py = (vy as usize + row) % 32;
        for col in 0..8usize
            invariant
                row < n <= 32,
                at + n <= 4096,
                sprite == sprite_at(mem@, at as int, n as int),
                before.len() == 2048,
                byte == sprite[row as int],
                py == (vy + row) % 32,
                forall|p: int|
                    0 <= p < 2048 ==> vram@[p] == (before[p] != sprite_lit_before(
                        sprite,
                        vx,
                        vy,
                        row as int,
                        col as int,
                        p,
                    )),
                hit == collides_before(before, sprite, vx, vy, row as int, col as int),
        {
            let px = (vx as usize + col) % 64;
            let idx = py * 64 + px;
            let bit = bit_at(byte, col);
            proof {
                lemma_target_offsets(vx, vy, row as int, col as int);
                assert(idx == target(vx, vy, row as int, col as int));
                assert forall|p: int| 0 <= p < 2048 && p != idx implies sprite_lit_before(
                    sprite,
                    vx,
                    vy,
                    row as int,
                    col + 1,
                    p,
                ) == sprite_lit_before(sprite, vx, vy, row as int, col as int, p) by {
                    lemma_offsets_target(vx, vy, p);
                }
                assert(!sprite_lit_before(sprite, vx, vy, row as int, col as int, idx as int));
                assert(sprite_lit_before(sprite, vx, vy, row as int, col + 1, idx as int) == bit);
                lemma_collides_step(before, sprite, vx, vy, row as int, col as int);
            }
            if bit {
                if vram[idx] {
                    hit = true;
                }
                vram[idx] = !vram[idx];
            }
        }
        proof {
            lemma_row_done(before, sprite, vx, vy, row as int);
        }
    }
    proof {
        lemma_sprite_done(before, sprite, vx, vy);
        assert(vram@ =~= drawn(before, sprite, vx, vy));
    }
    hit
}

/// Taking in the bit at `row`, `col` adds a collision exactly where that
/// bit is set over a pixel that is on.
proof fn lemma_collides_step(vram: Seq<bool>, sprite: Seq<u8>, vx: u8, vy: u8, row: int, col: int)
    requires
        vram.len() == 2048,
        0 <= row < 32,
        0 <= col < 8,
    ensures
        collides_before(vram, sprite, vx, vy, row, col + 1) == (collides_before(
            vram,
            sprite,
            vx,
            vy,
            row,
            col,
        ) || (vram[target(vx, vy, row, col)] && sprite_lit(
            sprite,
            vx,
            vy,
            target(vx, vy, row, col),
        ))),
{
    let t = target(vx, vy, row, col);
    lemma_target_offsets(vx, vy, row, col);
    if collides_before(vram, sprite, vx, vy, row, col) {
        let w = choose|p: int|
            0 <= p < vram.len() && vram[p] && #[trigger] sprite_lit_before(
                sprite,
                vx,
                vy,
                row,
                col,
                p,
            );
        assert(sprite_lit_before(sprite, vx, vy, row, col + 1, w));
    }
    if vram[t] && sprite_lit(sprite, vx, vy, t) {
        assert(sprite_lit_before(sprite, vx, vy, row, col + 1, t));
    }
    if collides_before(vram, sprite, vx, vy, row, col + 1) {
        let w = choose|p: int|
            0 <= p < vram.len() && vram[p] && #[trigger] sprite_lit_before(
                sprite,
                vx,
                vy,
                row,
                col + 1,
                p,
            );
        lemma_offsets_target(vx, vy, w);
        if w != t {
            assert(sprite_lit_before(sprite, vx, vy, row, col, w));
        }
    }
}

/// What precedes the end of a row is what precedes the start of the next.
proof fn lemma_row_done(vram: Seq<bool>, sprite: Seq<u8>, vx: u8, vy: u8, row: int)
    requires
        vram.len() == 2048,
    ensures
        forall|p: int|
            0 <= p < 2048 ==> sprite_lit_before(sprite, vx, vy, row, 8, p) == sprite_lit_before(
                sprite,
                vx,
                vy,
                row + 1,
                0,
                p,
            ),
        collides_before(vram, sprite, vx, vy, row, 8) == collides_before(
            vram,
            sprite,
            vx,
            vy,
            row + 1,
            0,
        ),
{
    assert forall|p: int| 0 <= p < 2048 implies sprite_lit_before(sprite, vx, vy, row, 8, p)
        == sprite_lit_before(sprite, vx, vy, row + 1, 0, p) by {
        lemma_offsets_target(vx, vy, p);
    }
    if collides_before(vram, sprite, vx, vy, row, 8) {
        let w = choose|p: int|
            0 <= p < vram.len() && vram[p] && #[trigger] sprite_lit_before(
                sprite,
                vx,
                vy,
                row,
                8,
                p,
            );
        assert(sprite_lit_before(sprite, vx, vy, row + 1, 0, w));
    }
    if collides_before(vram, sprite, vx, vy, row + 1, 0) {
        let w = choose|p: int|
            0 <= p < vram.len() && vram[p] && #[trigger] sprite_lit_before(
                sprite,
                vx,
                vy,
                row + 1,
                0,
                p,
            );
        assert(sprite_lit_before(sprite, vx, vy, row, 8, w));
    }
}

/// What precedes the row after the last is the whole sprite.
proof fn lemma_sprite_done(vram: Seq<bool>, sprite: Seq<u8>, vx: u8, vy: u8)
    requires
        vram.len() == 2048,
    ensures
        forall|p: int|
            0 <= p < 2048 ==> sprite_lit_before(sprite, vx, vy, sprite.len() as int, 0, p)
                == sprite_lit(sprite, vx, vy, p),
        collides_before(vram, sprite, vx, vy, sprite.len() as int, 0) == collides(
            vram,
            sprite,
            vx,
            vy,
        ),
{
    let n = sprite.len() as int;
    assert forall|p: int| 0 <= p < 2048 implies sprite_lit_before(sprite, vx, vy, n, 0, p)
        == sprite_lit(sprite, vx, vy, p) by {
        lemma_offsets_target(vx, vy, p);
    }
    if collides_before(vram, sprite, vx, vy, n, 0) {
        let w = choose|p: int|
            0 <= p < vram.len() && vram[p] && #[trigger] sprite_lit_before(
                sprite,
                vx,
                vy,
                n,
                0,
                p,
            );
        assert(sprite_lit(sprite, vx, vy, w));
    }
    if collides(vram, sprite, vx, vy) {
        let w = choose|p: int|
            0 <= p < vram.len() && vram[p] && #[trigger] sprite_lit(sprite, vx, vy, p);
        assert(sprite_lit_before(sprite, vx, vy, n, 0, w));
    }
}

} // verus!
