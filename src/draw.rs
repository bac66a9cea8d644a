//! XOR sprite drawing on the framebuffer.

use vstd::prelude::*;
use crate::machine::{address, collides, covers, drawn, pixel_index, sprite_has};

verus! {

/// Distinct sprite bits of one draw land on distinct pixels: a sprite has
/// fewer rows than the screen and fewer columns than its width.
pub proof fn lemma_pixel_index_injective(vx: u8, vy: u8, r1: int, c1: int, r2: int, c2: int)
    requires
        0 <= r1 < 16,
        0 <= r2 < 16,
        0 <= c1 < 8,
        0 <= c2 < 8,
        pixel_index(vx, vy, r1, c1) == pixel_index(vx, vy, r2, c2),
    ensures
        r1 == r2,
        c1 == c2,
{
}

/// A pixel index always lies on the screen.
pub proof fn lemma_pixel_index_bounds(vx: u8, vy: u8, row: int, col: int)
    requires
        0 <= row,
        0 <= col,
    ensures
        0 <= pixel_index(vx, vy, row, col) < 2048,
{
}

/// Whether bit (`r`, `c`) comes before bit (`row`, `col`) in row-major order.
spec fn before(row: int, col: int, r: int, c: int) -> bool {
    r < row || (r == row && c < col)
}

/// Whether a sprite bit before (`row`, `col`) is set and lands on pixel `p`.
spec fn hit_before(memory: Seq<u8>, i: u16, vx: u8, vy: u8, n: u8, row: int, col: int, p: int) -> bool {
    exists|r: int, c: int|
        #[trigger] sprite_has(memory, i, n, r, c) && before(row, col, r, c) && pixel_index(vx, vy, r, c) == p
}

/// Whether a sprite bit before (`row`, `col`) is set and lands on a pixel lit
/// in `screen`.
spec fn collides_before(screen: Seq<bool>, memory: Seq<u8>, i: u16, vx: u8, vy: u8, n: u8, row: int, col: int) -> bool {
    exists|r: int, c: int|
        #[trigger] sprite_has(memory, i, n, r, c) && before(row, col, r, c) && screen[pixel_index(vx, vy, r, c)]
}

/// XOR-draws the `n`-row sprite stored at `i` with its top-left corner at
/// (`vx`, `vy`), wrapping at the edges. Returns whether a lit pixel went out.
pub fn draw_sprite(screen: &mut [bool; 2048], memory: &[u8; 4096], i: u16, vx: u8, vy: u8, n: u8) -> (collided: bool)
    requires
        n < 16,
    ensures
        final(screen)@ == drawn(old(screen)@, memory@, i, vx, vy, n),
        collided == collides(old(screen)@, memory@, i, vx, vy, n),
{
    let ghost old_screen = screen@;
    let ghost mem = memory@;
    let mut collided = false;
    let mut row: u8 = 0;
    while row < n
        invariant
            row <= n < 16,
            mem == memory@,
            mem.len() == 4096,
            old_screen.len() == 2048,
            screen@.len() == 2048,
            forall|p: int|
                0 <= p < 2048 ==> #[trigger] screen@[p] == (old_screen[p] != hit_before(mem, i, vx, vy, n, row as int, 0, p)),
            collided == collides_before(old_screen, mem, i, vx, vy, n, row as int, 0),
        decreases n - row,
    {
        let a = (i as usize + row as usize) % 4096;
        let line = memory[a];
        assert(a == address(i, row as int));
        assert(line == mem[address(i, row as int)]);
        let mut col: u8 = 0;
        while col < 8
            invariant
                row < n < 16,
                col <= 8,
                mem.len() == 4096,
                old_screen.len() == 2048,
                line == mem[address(i, row as int)],
                screen@.len() == 2048,
                forall|p: int|
                    0 <= p < 2048 ==> #[trigger] screen@[p] == (old_screen[p] != hit_before(mem, i, vx, vy, n, row as int, col as int, p)),
                collided == collides_before(old_screen, mem, i, vx, vy, n, row as int, col as int),
            decreases 8 - col,
        {
            let ghost q = pixel_index(vx, vy, row as int, col as int);
            let ghost pre = screen@;
            let set = (line >> (7 - col)) & 1 == 1;
            assert(set == sprite_has(mem, i, n, row as int, col as int));
            if set {
                let p = ((vy as usize + row as usize) % 32) * 64 + (vx as usize + col as usize) % 64;
                assert(p == q);
                proof {
                    lemma_pixel_index_bounds(vx, vy, row as int, col as int);
                    // No earlier bit reached q, so q still holds its old value.
                    if hit_before(mem, i, vx, vy, n, row as int, col as int, q) {
                        let (r, c) = choose|r: int, c: int|
                            #[trigger] sprite_has(mem, i, n, r, c) && before(row as int, col as int, r, c) && pixel_index(vx, vy, r, c) == q;
                        lemma_pixel_index_injective(vx, vy, r, c, row as int, col as int);
                    }
                    assert(pre[q] == old_screen[q]);
                }
                if screen[p] {
                    collided = true;
                }
                screen[p] = !screen[p];
            }
            proof {
                let nc = (col + 1) as int;
                assert forall|p: int| 0 <= p < 2048 implies #[trigger] screen@[p] == (old_screen[p] != hit_before(mem, i, vx, vy, n, row as int, nc, p)) by {
                    if sprite_has(mem, i, n, row as int, col as int) && p == q {
                        assert(before(row as int, nc, row as int, col as int));
                    } else if hit_before(mem, i, vx, vy, n, row as int, nc, p) {
                        let (r, c) = choose|r: int, c: int|
                            #[trigger] sprite_has(mem, i, n, r, c) && before(row as int, nc, r, c) && pixel_index(vx, vy, r, c) == p;
                        assert(before(row as int, col as int, r, c));
                    }
                }
                if sprite_has(mem, i, n, row as int, col as int) && old_screen[q] {
                    assert(before(row as int, nc, row as int, col as int));
                    assert(collides_before(old_screen, mem, i, vx, vy, n, row as int, nc));
                } else if collides_before(old_screen, mem, i, vx, vy, n, row as int, nc) {
                    let (r, c) = choose|r: int, c: int|
                        #[trigger] sprite_has(mem, i, n, r, c) && before(row as int, nc, r, c) && old_screen[pixel_index(vx, vy, r, c)];
                    assert(before(row as int, col as int, r, c));
                }
                assert(collided == collides_before(old_screen, mem, i, vx, vy, n, row as int, nc));
            }
            col += 1;
        }
        proof {
            let nr = (row + 1) as int;
            assert forall|p: int| 0 <= p < 2048 implies #[trigger] screen@[p] == (old_screen[p] != hit_before(mem, i, vx, vy, n, nr, 0, p)) by {
                if hit_before(mem, i, vx, vy, n, row as int, 8, p) {
                    let (r, c) = choose|r: int, c: int|
                        #[trigger] sprite_has(mem, i, n, r, c) && before(row as int, 8, r, c) && pixel_index(vx, vy, r, c) == p;
                    assert(before(nr, 0, r, c));
                }
                if hit_before(mem, i, vx, vy, n, nr, 0, p) {
                    let (r, c) = choose|r: int, c: int|
                        #[trigger] sprite_has(mem, i, n, r, c) && before(nr, 0, r, c) && pixel_index(vx, vy, r, c) == p;
                    assert(before(row as int, 8, r, c));
                }
            }
            if collides_before(old_screen, mem, i, vx, vy, n, row as int, 8) {
                let (r, c) = choose|r: int, c: int|
                    #[trigger] sprite_has(mem, i, n, r, c) && before(row as int, 8, r, c) && old_screen[pixel_index(vx, vy, r, c)];
                assert(before(nr, 0, r, c));
            }
            if collides_before(old_screen, mem, i, vx, vy, n, nr, 0) {
                let (r, c) = choose|r: int, c: int|
                    #[trigger] sprite_has(mem, i, n, r, c) && before(nr, 0, r, c) && old_screen[pixel_index(vx, vy, r, c)];
                assert(before(row as int, 8, r, c));
            }
        }
        row += 1;
    }
    proof {
        assert forall|p: int| 0 <= p < 2048 implies #[trigger] screen@[p] == drawn(old_screen, mem, i, vx, vy, n)[p] by {
            if hit_before(mem, i, vx, vy, n, n as int, 0, p) {
                let (r, c) = choose|r: int, c: int|
                    #[trigger] sprite_has(mem, i, n, r, c) && before(n as int, 0, r, c) && pixel_index(vx, vy, r, c) == p;
                assert(covers(mem, i, vx, vy, n, p));
            }
            if covers(mem, i, vx, vy, n, p) {
                let (r, c) = choose|r: int, c: int|
                    #[trigger] sprite_has(mem, i, n, r, c) && pixel_index(vx, vy, r, c) == p;
                assert(before(n as int, 0, r, c));
            }
        }
        assert(screen@ =~= drawn(old_screen, mem, i, vx, vy, n));
        if collides(old_screen, mem, i, vx, vy, n) {
            let (r, c) = choose|r: int, c: int|
                #[trigger] sprite_has(mem, i, n, r, c) && old_screen[pixel_index(vx, vy, r, c)];
            assert(before(n as int, 0, r, c));
        }
    }
    collided
}

} // verus!
