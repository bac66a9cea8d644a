//! Properties of the instruction semantics that hold for every state.

use vstd::prelude::*;
use crate::instruction::{Instruction, decode_spec};
use crate::machine::{
    Fault, Machine, advanced, collides, covers, drawn, execute_spec, fetch, fetchable, flag,
    pixel_index, reg, sprite_has, step_spec,
};

verus! {

/// Every step keeps the machine well formed: component sizes are fixed and
/// the stack never exceeds its capacity.
pub proof fn lemma_step_keeps_valid(m: Machine, rnd: u8)
    requires
        m.valid(),
    ensures
        step_spec(m, rnd) matches Ok((next, _)) ==> next.valid(),
{
}

/// `8XY4` leaves `(a + b) mod 256` in `VX` and sets `VF` to 1 exactly when
/// `a + b` reaches 256 (for `X` other than `F`, whose result overwrites the flag).
pub proof fn lemma_add_carry(m: Machine, x: u8, y: u8, rnd: u8)
    requires
        m.valid(),
        fetchable(m.pc),
        x < 15,
        y < 16,
    ensures
        execute_spec(m, Instruction::AddReg { x, y }, rnd) matches Ok((next, redraw)) && !redraw
            && next.v[x as int] == (reg(m, x) + reg(m, y)) % 256
            && next.v[15] == (if reg(m, x) + reg(m, y) >= 256 { 1u8 } else { 0u8 }),
{
}

/// `8XY5` leaves `(a - b) mod 256` in `VX` and sets `VF` to 1 exactly when
/// `a >= b`, that is when no borrow occurs (for `X` other than `F`).
pub proof fn lemma_sub_borrow(m: Machine, x: u8, y: u8, rnd: u8)
    requires
        m.valid(),
        fetchable(m.pc),
        x < 15,
        y < 16,
    ensures
        execute_spec(m, Instruction::SubReg { x, y }, rnd) matches Ok((next, redraw)) && !redraw
            && next.v[x as int] == (reg(m, x) - reg(m, y)) % 256
            && next.v[15] == (if reg(m, x) >= reg(m, y) { 1u8 } else { 0u8 }),
{
}

/// `8XY6` on value `v` leaves `v >> 1` and sets `VF` to `v & 1`; `8XYE`
/// leaves `(v << 1) mod 256` and sets `VF` to `(v >> 7) & 1` (for `X`
/// other than `F`).
pub proof fn lemma_shifts(m: Machine, x: u8, rnd: u8)
    requires
        m.valid(),
        fetchable(m.pc),
        x < 15,
    ensures
        execute_spec(m, Instruction::ShiftRight { x }, rnd) matches Ok((next, _))
            && next.v[x as int] == reg(m, x) >> 1u8 && next.v[15] == reg(m, x) & 1u8,
        execute_spec(m, Instruction::ShiftLeft { x }, rnd) matches Ok((next, _))
            && next.v[x as int] == ((reg(m, x) as int * 2) % 256) && next.v[x as int] == (reg(m, x) << 1u8)
            && next.v[15] == (reg(m, x) >> 7u8) & 1u8,
{
    let v = reg(m, x);
    assert(v >> 1u8 == v / 2 && v & 1u8 == v % 2) by (bit_vector);
    assert(v << 1u8 == (v * 2) % 256 && (v >> 7u8) & 1u8 == (if v >= 128 { 1u8 } else { 0u8 })) by (bit_vector);
}

/// A jump lands in the same state from any address: two states that differ
/// only in the program counter, each at a jump to the same target, step to
/// the same state, whatever random bytes the steps are given.
pub proof fn lemma_jump_forgets_origin(m1: Machine, m2: Machine, addr: u16, rnd1: u8, rnd2: u8)
    requires
        m1 == (Machine { pc: m1.pc, ..m2 }),
        fetchable(m1.pc),
        fetchable(m2.pc),
        decode_spec(fetch(m1)) == Some(Instruction::Jump { addr }),
        decode_spec(fetch(m2)) == Some(Instruction::Jump { addr }),
    ensures
        step_spec(m1, rnd1) == step_spec(m2, rnd2),
        step_spec(m1, rnd1) == Ok::<(Machine, bool), Fault>((Machine { pc: addr, ..m1 }, false)),
{
}

/// Executing a jump a second time changes nothing more.
pub proof fn lemma_jump_idempotent(m: Machine, addr: u16, rnd: u8)
    requires
        fetchable(m.pc),
        fetchable(addr),
    ensures
        execute_spec(m, Instruction::Jump { addr }, rnd) matches Ok((next, _))
            && execute_spec(next, Instruction::Jump { addr }, rnd) == Ok::<(Machine, bool), Fault>((next, false)),
{
}

/// A call followed at once by a return resumes at the instruction after the
/// call with the stack as before; nothing else has changed either.
pub proof fn lemma_call_return(m: Machine, addr: u16, rnd: u8)
    requires
        m.valid(),
        fetchable(m.pc),
        fetchable(addr),
        m.stack.len() < 16,
    ensures
        execute_spec(m, Instruction::Call { addr }, rnd) matches Ok((called, _))
            && execute_spec(called, Instruction::Return, rnd) matches Ok((back, _))
            && back.pc == m.pc + 2 && back.stack == m.stack && back == advanced(m),
{
    let called = Machine { pc: addr, stack: m.stack.push((m.pc + 2) as u16), ..advanced(m) };
    assert(called.stack.drop_last() =~= m.stack);
}

/// Drawing the same sprite at the same place twice in a row restores every
/// pixel. The second draw reports a collision exactly when some set sprite
/// bit landed on a pixel that was unlit before the first, so after a first
/// draw without collision, any sprite with a set bit reports one.
pub proof fn lemma_draw_twice(m: Machine, x: u8, y: u8, n: u8, rnd: u8)
    requires
        m.valid(),
        m.pc + 3 < 4096,
        x < 15,
        y < 15,
        n < 16,
    ensures
        execute_spec(m, Instruction::Draw { x, y, n }, rnd) matches Ok((once, _))
            && execute_spec(once, Instruction::Draw { x, y, n }, rnd) matches Ok((twice, _))
            && twice.screen == m.screen
            && (twice.v[15] == 1) == (exists|p: int|
                0 <= p < 2048 && covers(m.memory, m.i, reg(m, x), reg(m, y), n, p) && !m.screen[p])
            && (once.v[15] == 0 && (exists|row: int, col: int| sprite_has(m.memory, m.i, n, row, col))
                ==> twice.v[15] == 1),
{
    let (vx, vy) = (reg(m, x), reg(m, y));
    let once_screen = drawn(m.screen, m.memory, m.i, vx, vy, n);
    assert(drawn(once_screen, m.memory, m.i, vx, vy, n) =~= m.screen);
    let unlit_hit = exists|p: int|
        0 <= p < 2048 && covers(m.memory, m.i, vx, vy, n, p) && !m.screen[p];
    if collides(once_screen, m.memory, m.i, vx, vy, n) {
        let (row, col) = choose|row: int, col: int|
            #[trigger] sprite_has(m.memory, m.i, n, row, col) && once_screen[pixel_index(vx, vy, row, col)];
        let p = pixel_index(vx, vy, row, col);
        crate::draw::lemma_pixel_index_bounds(vx, vy, row, col);
        assert(covers(m.memory, m.i, vx, vy, n, p));
        assert(unlit_hit);
    }
    if unlit_hit {
        let p = choose|p: int| 0 <= p < 2048 && covers(m.memory, m.i, vx, vy, n, p) && !m.screen[p];
        let (row, col) = choose|row: int, col: int|
            #[trigger] sprite_has(m.memory, m.i, n, row, col) && pixel_index(vx, vy, row, col) == p;
        assert(once_screen[pixel_index(vx, vy, row, col)]);
        assert(collides(once_screen, m.memory, m.i, vx, vy, n));
    }
    if !collides(m.screen, m.memory, m.i, vx, vy, n) && (exists|row: int, col: int|
        sprite_has(m.memory, m.i, n, row, col)) {
        let (row, col) = choose|row: int, col: int| sprite_has(m.memory, m.i, n, row, col);
        let p = pixel_index(vx, vy, row, col);
        crate::draw::lemma_pixel_index_bounds(vx, vy, row, col);
        assert(covers(m.memory, m.i, vx, vy, n, p));
        assert(!m.screen[p]);
        assert(unlit_hit);
    }
}

/// Columns wrap: a sprite drawn from column 63 whose row has its second bit
/// set flips column 0 of that row rather than dropping the bit.
pub proof fn lemma_draw_wraps_columns(m: Machine, x: u8, y: u8, n: u8, row: int, rnd: u8)
    requires
        m.valid(),
        fetchable(m.pc),
        x < 16,
        y < 16,
        n < 16,
        reg(m, x) == 63,
        sprite_has(m.memory, m.i, n, row, 1),
    ensures
        execute_spec(m, Instruction::Draw { x, y, n }, rnd) matches Ok((next, _))
            && next.screen[((reg(m, y) + row) % 32) * 64] == !m.screen[((reg(m, y) + row) % 32) * 64],
{
    let p = pixel_index(63, reg(m, y), row, 1);
    assert(p == ((reg(m, y) + row) % 32) * 64);
    crate::draw::lemma_pixel_index_bounds(63, reg(m, y), row, 1);
    assert(covers(m.memory, m.i, 63, reg(m, y), n, p));
}

} // verus!
