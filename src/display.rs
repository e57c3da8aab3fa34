use vstd::prelude::*;
use vstd::arithmetic::div_mod::{lemma_fundamental_div_mod, lemma_fundamental_div_mod_converse};

use crate::machine::{DISPLAY_SIZE, MEMORY_SIZE, PIXEL_ON};

verus! {

/// Rows below the sprite's top row at which pixel `p` lies, counted with
/// vertical wraparound.
pub open spec fn row_offset(p: int, vy: u8) -> int {
    (p / 64 - vy as int) % 32
}

/// Columns right of the sprite's left edge at which pixel `p` lies, counted
/// with horizontal wraparound.
pub open spec fn col_offset(p: int, vx: u8) -> int {
    (p % 64 - vx as int) % 64
}

/// Bit `k` of `b`, counting from the least significant.
pub open spec fn bit_of(b: u8, k: u8) -> bool {
    (b >> k) & 1u8 == 1u8
}

/// Whether the `n`-row sprite stored at `i`, drawn at `(vx, vy)`, has a set
/// bit over pixel `p`. Each sprite row is one byte, most significant bit
/// leftmost.
pub open spec fn sprite_pixel(memory: Seq<u8>, i: u16, vx: u8, vy: u8, n: u8, p: int) -> bool {
    let dy = row_offset(p, vy);
    let dx = col_offset(p, vx);
    &&& dy < n
    &&& dx < 8
    &&& bit_of(memory[(i as int + dy) % (MEMORY_SIZE as int)], (7 - dx) as u8)
}

/// The display after XOR-ing the sprite onto it.
pub open spec fn drawn(
    display: Seq<bool>,
    memory: Seq<u8>,
    i: u16,
    vx: u8,
    vy: u8,
    n: u8,
) -> Seq<bool> {
    Seq::new(display.len(), |p: int| display[p] != sprite_pixel(memory, i, vx, vy, n, p))
}

/// Whether drawing the sprite turns some lit pixel off.
pub open spec fn collides(
    display: Seq<bool>,
    memory: Seq<u8>,
    i: u16,
    vx: u8,
    vy: u8,
    n: u8,
) -> bool {
    exists|p: int|
        0 <= p < display.len() && #[trigger] sprite_pixel(memory, i, vx, vy, n, p) && display[p]
}

/// The pixel that row `row`, bit `bit` of a sprite at `(vx, vy)` lands on is
/// the only one at those offsets.
pub proof fn lemma_cell(vx: u8, vy: u8, row: int, bit: int)
    requires
        0 <= row < 16,
        0 <= bit < 8,
    ensures
        ({
            let idx = ((vy as int + row) % 32) * 64 + (vx as int + bit) % 64;
            &&& 0 <= idx < DISPLAY_SIZE
            &&& row_offset(idx, vy) == row
            &&& col_offset(idx, vx) == bit
            &&& forall|p: int|
                0 <= p < DISPLAY_SIZE && row_offset(p, vy) == row && col_offset(p, vx) == bit
                    ==> p == idx
        }),
{
    let sy = (vy as int + row) % 32;
    let sx = (vx as int + bit) % 64;
    let idx = sy * 64 + sx;
    lemma_fundamental_div_mod_converse(idx, 64, sy, sx);
    assert forall|p: int|
        0 <= p < DISPLAY_SIZE && row_offset(p, vy) == row && col_offset(p, vx) == bit implies p
        == idx by {
        lemma_fundamental_div_mod(p, 64);
        assert(0 <= p / 64 < 32);
        assert(p / 64 == sy);
        assert(p % 64 == sx);
    }
}

/// XORs the `n`-row sprite found in `memory` at `i` onto `display` at
/// `(vx, vy)`, wrapping each pixel at the screen edges; returns whether a lit
/// pixel was turned off.
pub fn draw_sprite(
    display: &mut [u32; 2048],
    memory: &[u8; 4096],
    i: u16,
    vx: u8,
    vy: u8,
    n: u8,
) -> (collided: bool)
    requires
        n < 16,
        forall|p: int|
            0 <= p < DISPLAY_SIZE ==> #[trigger] old(display)@[p] == 0u32 || old(display)@[p]
                == PIXEL_ON,
    ensures
        forall|p: int|
            0 <= p < DISPLAY_SIZE ==> #[trigger] final(display)@[p] == 0u32 || final(display)@[p]
                == PIXEL_ON,
        final(display)@.map_values(|p: u32| p == PIXEL_ON) == drawn(
            old(display)@.map_values(|p: u32| p == PIXEL_ON),
            memory@,
            i,
            vx,
            vy,
            n,
        ),
        collided == collides(
            old(display)@.map_values(|p: u32| p == PIXEL_ON),
            memory@,
            i,
            vx,
            vy,
            n,
        ),
{
    let ghost before = old(display)@.map_values(|p: u32| p == PIXEL_ON);
    let ghost mem = memory@;
    let mut collided = false;
    let mut row: u8 = 0;
    while row < n
        invariant
            row <= n,
            n < 16,
            mem == memory@,
            before.len() == DISPLAY_SIZE,
            forall|p: int|
                0 <= p < DISPLAY_SIZE ==> #[trigger] display@[p] == 0u32 || display@[p] == PIXEL_ON,
            forall|p: int|
                0 <= p < DISPLAY_SIZE ==> (#[trigger] display@[p] == PIXEL_ON) == (before[p] != (
                sprite_pixel(mem, i, vx, vy, n, p) && row_offset(p, vy) < row)),
            collided == exists|p: int|
                0 <= p < DISPLAY_SIZE && #[trigger] sprite_pixel(mem, i, vx, vy, n, p) && before[p]
                    && row_offset(p, vy) < row,
        decreases n - row,
    {
        let sprite = memory[(i as usize + row as usize) % MEMORY_SIZE];
        let sy = (vy as usize + row as usize) % 32;
        let mut bit: u8 = 0;
        while bit < 8
            invariant
                row < n,
                n < 16,
                bit <= 8,
                mem == memory@,
                before.len() == DISPLAY_SIZE,
                sy == (vy as int + row) % 32,
                sprite == mem[(i as int + row) % (MEMORY_SIZE as int)],
                forall|p: int|
                    0 <= p < DISPLAY_SIZE ==> #[trigger] display@[p] == 0u32 || display@[p]
                        == PIXEL_ON,
                forall|p: int|
                    0 <= p < DISPLAY_SIZE ==> (#[trigger] display@[p] == PIXEL_ON) == (before[p]
                        != (sprite_pixel(mem, i, vx, vy, n, p) && (row_offset(p, vy) < row || (
                    row_offset(p, vy) == row && col_offset(p, vx) < bit)))),
                collided == exists|p: int|
                    0 <= p < DISPLAY_SIZE && #[trigger] sprite_pixel(mem, i, vx, vy, n, p)
                        && before[p] && (row_offset(p, vy) < row || (row_offset(p, vy) == row
                        && col_offset(p, vx) < bit)),
            decreases 8 - bit,
        {
            let sx = (vx as usize + bit as usize) % 64;
            let idx = sy * 64 + sx;
            proof {
                lemma_cell(vx, vy, row as int, bit as int);
            }
            let ghost prev = display@;
            if (sprite >> (7 - bit)) & 1 == 1 {
                assert(sprite_pixel(mem, i, vx, vy, n, idx as int));
                if display[idx] == PIXEL_ON {
                    collided = true;
                    display[idx] = 0;
                } else {
                    display[idx] = PIXEL_ON;
                }
            } else {
                assert(!sprite_pixel(mem, i, vx, vy, n, idx as int));
            }
            bit += 1;
        }
        row += 1;
    }
    assert(display@.map_values(|p: u32| p == PIXEL_ON) =~= drawn(before, mem, i, vx, vy, n));
    collided
}

} // verus!
