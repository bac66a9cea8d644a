//! The abstract machine: its state as mathematical values, and what each
//! instruction, each fetch-decode-execute step and each driver cycle does to it.

use vstd::prelude::*;
use crate::instruction::{Instruction, decode_spec};

verus! {

/// Bytes of addressable memory.
pub const MEMORY_SIZE: usize = 4096;
/// Address at which a program image is loaded and execution starts.
pub const PROGRAM_START: u16 = 0x200;
/// Bytes of program space, from the load address to the end of memory.
pub const PROGRAM_CAPACITY: usize = 3584;
/// Framebuffer width in pixels.
pub const SCREEN_WIDTH: usize = 64;
/// Framebuffer height in pixels.
pub const SCREEN_HEIGHT: usize = 32;
/// Number of pixels of the framebuffer.
pub const SCREEN_SIZE: usize = 2048;
/// Most return addresses the stack holds.
pub const STACK_CAPACITY: usize = 16;
/// Bytes per font glyph.
pub const GLYPH_SIZE: u16 = 5;

/// A fatal condition that stops the machine. The instruction at fault is not
/// applied at all.
#[derive(Clone, Copy, Debug, PartialEq, Eq, Structural)]
pub enum Fault {
    /// The word at `address` encodes no instruction.
    Decode { address: u16, word: u16 },
    /// A call at `address` found the stack full.
    StackOverflow { address: u16 },
    /// A return at `address` found the stack empty.
    StackUnderflow { address: u16 },
    /// The program counter leaves no room for a whole instruction.
    PcOutOfRange { pc: u16 },
    /// A program image of `len` bytes does not fit in program space.
    ImageTooLarge { len: usize },
}

/// The whole machine state, as values.
#[verifier::ext_equal]
pub struct Machine {
    /// Registers `V0`..`VF`.
    pub v: Seq<u8>,
    /// The address register `I`.
    pub i: u16,
    /// The program counter.
    pub pc: u16,
    /// Memory, one byte per address.
    pub memory: Seq<u8>,
    pub delay_timer: u8,
    pub sound_timer: u8,
    /// Return addresses, the most recent last; its length is the stack pointer.
    pub stack: Seq<u16>,
    /// Which of the 16 keys are down.
    pub keys: Seq<bool>,
    /// Pixel `row * 64 + col` is lit when true.
    pub screen: Seq<bool>,
    /// Whether instruction tracing is on.
    pub tracing: bool,
}

impl Machine {
    /// Every component has its fixed size and the stack is within capacity.
    pub open spec fn valid(self) -> bool {
        &&& self.v.len() == 16
        &&& self.memory.len() == MEMORY_SIZE
        &&& self.stack.len() <= STACK_CAPACITY
        &&& self.keys.len() == 16
        &&& self.screen.len() == SCREEN_SIZE
    }
}

/// The built-in hexadecimal font: glyphs `0` to `F`, five rows each.
pub open spec fn font() -> Seq<u8> {
    seq![
        0xF0u8, 0x90, 0x90, 0x90, 0xF0, // 0
        0x20, 0x60, 0x20, 0x20, 0x70, // 1
        0xF0, 0x10, 0xF0, 0x80, 0xF0, // 2
        0xF0, 0x10, 0xF0, 0x10, 0xF0, // 3
        0x90, 0x90, 0xF0, 0x10, 0x10, // 4
        0xF0, 0x80, 0xF0, 0x10, 0xF0, // 5
        0xF0, 0x80, 0xF0, 0x90, 0xF0, // 6
        0xF0, 0x10, 0x20, 0x40, 0x40, // 7
        0xF0, 0x90, 0xF0, 0x90, 0xF0, // 8
        0xF0, 0x90, 0xF0, 0x10, 0xF0, // 9
        0xF0, 0x90, 0xF0, 0x90, 0x90, // A
        0xE0, 0x90, 0xE0, 0x90, 0xE0, // B
        0xF0, 0x80, 0x80, 0x80, 0xF0, // C
        0xE0, 0x90, 0x90, 0x90, 0xE0, // D
        0xF0, 0x80, 0xF0, 0x80, 0xF0, // E
        0xF0, 0x80, 0xF0, 0x80, 0x80, // F
    ]
}

/// The state of a machine just started: everything zero, the program
/// counter at the load address, the given keys.
pub open spec fn initial(keys: Seq<bool>) -> Machine {
    Machine {
        v: Seq::new(16, |k: int| 0u8),
        i: 0,
        pc: PROGRAM_START,
        memory: Seq::new(MEMORY_SIZE as nat, |a: int| 0u8),
        delay_timer: 0,
        sound_timer: 0,
        stack: Seq::empty(),
        keys,
        screen: Seq::new(SCREEN_SIZE as nat, |p: int| false),
        tracing: false,
    }
}

/// The memory address `k` bytes past `base`, wrapping within memory.
pub open spec fn address(base: u16, k: int) -> int {
    (base + k) % (MEMORY_SIZE as int)
}

/// How far address `a` lies past `base`, counted around memory.
pub open spec fn offset(base: u16, a: int) -> int {
    (a - base) % (MEMORY_SIZE as int)
}

/// The value of register `x`.
pub open spec fn reg(m: Machine, x: u8) -> u8 {
    m.v[x as int]
}

/// The flag register value for a condition.
pub open spec fn flag(b: bool) -> u8 {
    if b { 1 } else { 0 }
}

/// `m` with register `x` set to `val`.
pub open spec fn set_reg(m: Machine, x: u8, val: u8) -> Machine {
    Machine { v: m.v.update(x as int, val), ..m }
}

/// `m` with `VF` set to the flag of `carry` and then register `x` set to
/// `result` (so that for `x == 0xF` the result is what stays).
pub open spec fn set_with_flag(m: Machine, x: u8, result: u8, carry: bool) -> Machine {
    Machine { v: m.v.update(15, flag(carry)).update(x as int, result), ..m }
}

/// `m` with the program counter moved past one instruction.
pub open spec fn advanced(m: Machine) -> Machine {
    Machine { pc: (m.pc + 2) as u16, ..m }
}

/// `m` with the next instruction skipped when `cond` holds.
pub open spec fn skip_when(m: Machine, cond: bool) -> Machine {
    if cond { advanced(m) } else { m }
}

/// Whether the key that value `key` names is down; a value past 15 names no key.
pub open spec fn key_down(m: Machine, key: u8) -> bool {
    key < 16 && m.keys[key as int]
}

/// Whether bit `col` (0 the leftmost, 7 the rightmost) of a sprite row is set.
pub open spec fn sprite_bit(row_byte: u8, col: int) -> bool {
    (row_byte >> ((7 - col) as u8)) & 1u8 == 1u8
}

/// The pixel that bit `col` of sprite row `row` lands on when the sprite is
/// drawn at (`vx`, `vy`): coordinates wrap around both edges.
pub open spec fn pixel_index(vx: u8, vy: u8, row: int, col: int) -> int {
    ((vy + row) % (SCREEN_HEIGHT as int)) * (SCREEN_WIDTH as int) + (vx + col) % (SCREEN_WIDTH as int)
}

/// Whether bit `col` of row `row` of the `n`-row sprite stored at `i` is set.
pub open spec fn sprite_has(memory: Seq<u8>, i: u16, n: u8, row: int, col: int) -> bool {
    0 <= row < n && 0 <= col < 8 && sprite_bit(memory[address(i, row)], col)
}

/// Whether the sprite drawn at (`vx`, `vy`) has a set bit on pixel `p`.
pub open spec fn covers(memory: Seq<u8>, i: u16, vx: u8, vy: u8, n: u8, p: int) -> bool {
    exists|row: int, col: int|
        #[trigger] sprite_has(memory, i, n, row, col) && pixel_index(vx, vy, row, col) == p
}

/// The framebuffer after XOR-drawing the sprite: each pixel under a set
/// sprite bit flips, every other pixel stays.
pub open spec fn drawn(screen: Seq<bool>, memory: Seq<u8>, i: u16, vx: u8, vy: u8, n: u8) -> Seq<bool> {
    Seq::new(screen.len(), |p: int| screen[p] != covers(memory, i, vx, vy, n, p))
}

/// Whether drawing the sprite turns some lit pixel off.
pub open spec fn collides(screen: Seq<bool>, memory: Seq<u8>, i: u16, vx: u8, vy: u8, n: u8) -> bool {
    exists|row: int, col: int|
        #[trigger] sprite_has(memory, i, n, row, col) && screen[pixel_index(vx, vy, row, col)]
}

/// Memory after storing registers `V0`..=`VX` from `I` on.
pub open spec fn stored(memory: Seq<u8>, v: Seq<u8>, i: u16, x: u8) -> Seq<u8> {
    Seq::new(memory.len(), |a: int| if offset(i, a) <= x { v[offset(i, a)] } else { memory[a] })
}

/// Registers after loading `V0`..=`VX` from memory from `I` on.
pub open spec fn loaded(v: Seq<u8>, memory: Seq<u8>, i: u16, x: u8) -> Seq<u8> {
    Seq::new(v.len(), |k: int| if k <= x { memory[address(i, k)] } else { v[k] })
}

/// Memory after storing the hundreds, tens and ones digits of `val` at
/// `I`, `I+1` and `I+2`.
pub open spec fn bcd_stored(memory: Seq<u8>, i: u16, val: u8) -> Seq<u8> {
    memory.update(address(i, 0), val / 100).update(address(i, 1), (val / 10) % 10).update(
        address(i, 2),
        val % 10,
    )
}

/// Whether a whole instruction can be fetched at `pc`.
pub open spec fn fetchable(pc: u16) -> bool {
    pc + 1 < MEMORY_SIZE
}

/// What executing `ins`, located at `m.pc`, does: the next state and
/// whether the framebuffer is to be presented, or the fault. `rnd` is the
/// random byte that a random instruction uses.
pub open spec fn execute_spec(m: Machine, ins: Instruction, rnd: u8) -> Result<(Machine, bool), Fault> {
    let a = advanced(m);
    if !fetchable(m.pc) {
        Err(Fault::PcOutOfRange { pc: m.pc })
    } else {
        match ins {
            Instruction::ClearScreen => Ok(
                (Machine { screen: Seq::new(m.screen.len(), |p: int| false), ..a }, true),
            ),
            Instruction::Return => if m.stack.len() == 0 {
                Err(Fault::StackUnderflow { address: m.pc })
            } else {
                Ok((Machine { pc: m.stack.last(), stack: m.stack.drop_last(), ..a }, false))
            },
            Instruction::MachineCall { .. } => Ok((a, false)),
            Instruction::Jump { addr } => Ok((Machine { pc: addr, ..a }, false)),
            Instruction::Call { addr } => if m.stack.len() >= STACK_CAPACITY {
                Err(Fault::StackOverflow { address: m.pc })
            } else {
                Ok((Machine { pc: addr, stack: m.stack.push(a.pc), ..a }, false))
            },
            Instruction::SkipEqImm { x, value } => Ok((skip_when(a, reg(m, x) == value), false)),
            Instruction::SkipNeImm { x, value } => Ok((skip_when(a, reg(m, x) != value), false)),
            Instruction::SkipEqReg { x, y } => Ok((skip_when(a, reg(m, x) == reg(m, y)), false)),
            Instruction::SkipNeReg { x, y } => Ok((skip_when(a, reg(m, x) != reg(m, y)), false)),
            Instruction::LoadImm { x, value } => Ok((set_reg(a, x, value), false)),
            Instruction::AddImm { x, value } => Ok(
                (set_reg(a, x, ((reg(m, x) + value) % 256) as u8), false),
            ),
            Instruction::Copy { x, y } => Ok((set_reg(a, x, reg(m, y)), false)),
            Instruction::Or { x, y } => Ok((set_reg(a, x, reg(m, x) | reg(m, y)), false)),
            Instruction::And { x, y } => Ok((set_reg(a, x, reg(m, x) & reg(m, y)), false)),
            Instruction::Xor { x, y } => Ok((set_reg(a, x, reg(m, x) ^ reg(m, y)), false)),
            Instruction::AddReg { x, y } => Ok(
                (
                    set_with_flag(
                        a,
                        x,
                        ((reg(m, x) + reg(m, y)) % 256) as u8,
                        reg(m, x) + reg(m, y) >= 256,
                    ),
                    false,
                ),
            ),
            Instruction::SubReg { x, y } => Ok(
                (
                    set_with_flag(
                        a,
                        x,
                        ((reg(m, x) - reg(m, y)) % 256) as u8,
                        reg(m, x) >= reg(m, y),
                    ),
                    false,
                ),
            ),
            Instruction::SubReverse { x, y } => Ok(
                (
                    set_with_flag(
                        a,
                        x,
                        ((reg(m, y) - reg(m, x)) % 256) as u8,
                        reg(m, y) >= reg(m, x),
                    ),
                    false,
                ),
            ),
            Instruction::ShiftRight { x } => Ok(
                (set_with_flag(a, x, reg(m, x) / 2, reg(m, x) % 2 == 1), false),
            ),
            Instruction::ShiftLeft { x } => Ok(
                (set_with_flag(a, x, ((reg(m, x) * 2) % 256) as u8, reg(m, x) >= 128), false),
            ),
            Instruction::LoadIndex { addr } => Ok((Machine { i: addr, ..a }, false)),
            Instruction::JumpOffset { addr } => Ok(
                (Machine { pc: (addr + reg(m, 0)) as u16, ..a }, false),
            ),
            Instruction::Random { x, mask } => Ok((set_reg(a, x, rnd & mask), false)),
            Instruction::Draw { x, y, n } => Ok(
                (
                    Machine {
                        screen: drawn(m.screen, m.memory, m.i, reg(m, x), reg(m, y), n),
                        v: m.v.update(
                            15,
                            flag(collides(m.screen, m.memory, m.i, reg(m, x), reg(m, y), n)),
                        ),
                        ..a
                    },
                    true,
                ),
            ),
            Instruction::SkipKeyPressed { x } => Ok((skip_when(a, key_down(m, reg(m, x))), false)),
            Instruction::SkipKeyNotPressed { x } => Ok(
                (skip_when(a, !key_down(m, reg(m, x))), false),
            ),
            Instruction::ReadDelay { x } => Ok((set_reg(a, x, m.delay_timer), false)),
            Instruction::SetDelay { x } => Ok((Machine { delay_timer: reg(m, x), ..a }, false)),
            Instruction::SetSound { x } => Ok((Machine { sound_timer: reg(m, x), ..a }, false)),
            Instruction::FontAddress { x } => Ok(
                (Machine { i: (reg(m, x) * GLYPH_SIZE) as u16, ..a }, false),
            ),
            Instruction::StoreBcd { x } => Ok(
                (Machine { memory: bcd_stored(m.memory, m.i, reg(m, x)), ..a }, false),
            ),
            Instruction::StoreRegisters { x } => Ok(
                (Machine { memory: stored(m.memory, m.v, m.i, x), ..a }, false),
            ),
            Instruction::LoadRegisters { x } => Ok(
                (Machine { v: loaded(m.v, m.memory, m.i, x), ..a }, false),
            ),
        }
    }
}

/// The big-endian instruction word at the program counter.
pub open spec fn fetch(m: Machine) -> u16 {
    (m.memory[m.pc as int] * 256 + m.memory[m.pc + 1]) as u16
}

/// One fetch-decode-execute step.
pub open spec fn step_spec(m: Machine, rnd: u8) -> Result<(Machine, bool), Fault> {
    if !fetchable(m.pc) {
        Err(Fault::PcOutOfRange { pc: m.pc })
    } else {
        match decode_spec(fetch(m)) {
            None => Err(Fault::Decode { address: m.pc, word: fetch(m) }),
            Some(ins) => execute_spec(m, ins, rnd),
        }
    }
}

/// `m` with each timer one lower, where it is above zero.
pub open spec fn ticked(m: Machine) -> Machine {
    Machine {
        delay_timer: if m.delay_timer > 0 { (m.delay_timer - 1) as u8 } else { 0 },
        sound_timer: if m.sound_timer > 0 { (m.sound_timer - 1) as u8 } else { 0 },
        ..m
    }
}

/// One driver cycle: a step, then a timer tick where the step succeeded.
pub open spec fn cycle_spec(m: Machine, rnd: u8) -> Result<(Machine, bool), Fault> {
    match step_spec(m, rnd) {
        Ok((next, redraw)) => Ok((ticked(next), redraw)),
        Err(e) => Err(e),
    }
}

/// The state after an operation with result `res` that started from
/// `before`, paired with what the operation returns: a fault leaves the
/// state as it was.
pub open spec fn outcome(before: Machine, res: Result<(Machine, bool), Fault>) -> (Machine, Result<bool, Fault>) {
    match res {
        Ok((after, redraw)) => (after, Ok(redraw)),
        Err(e) => (before, Err(e)),
    }
}

} // verus!
