//! The interpreter engine: the machine state and the fetch-decode-execute step.

use vstd::prelude::*;
use crate::draw::draw_sprite;
use crate::instruction::{Instruction, decode};
use crate::color::{color_of, pixel_color};
use crate::keyboard::{Keyboard, named_by};
use crate::rom::ROM;
use crate::machine::{
    Fault, GLYPH_SIZE, Machine, PROGRAM_START, STACK_CAPACITY, address, execute_spec, initial, loaded,
    offset, outcome, fetchable, set_reg, fetch, step_spec, cycle_spec, ticked, font, MEMORY_SIZE,
    PROGRAM_CAPACITY, SCREEN_SIZE, SCREEN_WIDTH, SCREEN_HEIGHT, set_with_flag, skip_when, stored,
};

verus! {

/// The machine: registers, memory, stack, timers, keypad and framebuffer.
pub struct CPU {
    v: [u8; 16],
    i: u16,
    pc: u16,
    memory: [u8; 4096],
    delay_timer: u8,
    sound_timer: u8,
    stack: Vec<u16>,
    debug_mode: bool,
    keyboard: Keyboard,
    screen: [bool; 2048],
}

/// `m` with the keypad state that the physical labels in `pressed` give.
pub open spec fn with_keys(m: Machine, pressed: Seq<char>) -> Machine {
    Machine { keys: Seq::new(16, |k: int| named_by(pressed, k)), ..m }
}

impl View for CPU {
    type V = Machine;

    closed spec fn view(&self) -> Machine {
        Machine {
            v: self.v@,
            i: self.i,
            pc: self.pc,
            memory: self.memory@,
            delay_timer: self.delay_timer,
            sound_timer: self.sound_timer,
            stack: self.stack@,
            keys: self.keyboard@,
            screen: self.screen@,
            tracing: self.debug_mode,
        }
    }
}

/// How far address `a` lies past `base` is `k` exactly when `a` is the
/// address `k` bytes past `base`.
proof fn lemma_offset_address(base: u16, a: int, k: int)
    requires
        0 <= a < 4096,
        0 <= k < 4096,
    ensures
        0 <= offset(base, a) < 4096,
        (offset(base, a) == k) == (a == address(base, k)),
{
}

/// Stores registers `V0`..=`VX` in memory from `i` on, wrapping at the end.
fn store_registers(memory: &mut [u8; 4096], v: &[u8; 16], i: u16, x: u8)
    requires
        x < 16,
    ensures
        final(memory)@ == stored(old(memory)@, v@, i, x),
{
    let ghost before = memory@;
    let mut k: u8 = 0;
    while k <= x
        invariant
            k <= x + 1,
            x < 16,
            before.len() == 4096,
            memory@.len() == 4096,
            forall|a: int|
                0 <= a < 4096 ==> #[trigger] memory@[a] == if offset(i, a) < k {
                    v@[offset(i, a)]
                } else {
                    before[a]
                },
        decreases x + 1 - k,
    {
        let target = (i as usize + k as usize) % 4096;
        memory[target] = v[k as usize];
        assert forall|a: int| 0 <= a < 4096 implies #[trigger] memory@[a] == if offset(i, a) < k + 1 {
            v@[offset(i, a)]
        } else {
            before[a]
        } by {
            lemma_offset_address(i, a, k as int);
        }
        k += 1;
    }
    assert(memory@ =~= stored(before, v@, i, x));
}

/// Loads registers `V0`..=`VX` from memory from `i` on, wrapping at the end.
fn load_registers(v: &mut [u8; 16], memory: &[u8; 4096], i: u16, x: u8)
    requires
        x < 16,
    ensures
        final(v)@ == loaded(old(v)@, memory@, i, x),
{
    let ghost before = v@;
    let mut k: u8 = 0;
    while k <= x
        invariant
            k <= x + 1,
            x < 16,
            before.len() == 16,
            v@.len() == 16,
            memory@.len() == 4096,
            forall|r: int|
                0 <= r < 16 ==> #[trigger] v@[r] == if r < k {
                    memory@[address(i, r)]
                } else {
                    before[r]
                },
        decreases x + 1 - k,
    {
        v[k as usize] = memory[(i as usize + k as usize) % 4096];
        k += 1;
    }
    assert(v@ =~= loaded(before, memory@, i, x));
}

/// `a - b` modulo 256.
fn wrapping_diff(a: u8, b: u8) -> (r: u8)
    ensures
        r == ((a - b) % 256) as u8,
{
    a.wrapping_sub(b)
}

/// `a >> 1` with the bit shifted out.
fn halve(a: u8) -> (r: (u8, bool))
    ensures
        r.0 == a / 2,
        r.1 == (a % 2 == 1),
{
    assert(a >> 1u8 == a / 2 && ((a & 1u8) == 1u8) == (a % 2 == 1)) by (bit_vector);
    (a >> 1, a & 1 == 1)
}

/// `a << 1` modulo 256 with the bit shifted out.
fn double(a: u8) -> (r: (u8, bool))
    ensures
        r.0 == ((a * 2) % 256) as u8,
        r.1 == (a >= 128),
{
    assert(a << 1u8 == (a * 2) % 256 && ((a >> 7u8) == 1u8) == (a >= 128)) by (bit_vector);
    (a << 1, a >> 7 == 1)
}

impl CPU {
    /// A machine with zeroed registers, memory, timers and framebuffer, an
    /// empty stack and the program counter at the load address.
    pub fn new(keyboard: Keyboard) -> (cpu: CPU)
        ensures
            cpu@ == initial(keyboard@),
    {
        let cpu = CPU {
            v: [0; 16],
            i: 0,
            pc: PROGRAM_START,
            memory: [0; 4096],
            delay_timer: 0,
            sound_timer: 0,
            stack: Vec::new(),
            debug_mode: false,
            keyboard,
            screen: [false; 2048],
        };
        assert(cpu@ =~= initial(keyboard@));
        cpu
    }

    /// Sets `VF` to the flag of `carry`, then `VX` to `result`.
    fn set_flagged(&mut self, x: u8, result: u8, carry: bool)
        requires
            x < 16,
        ensures
            final(self)@ == set_with_flag(old(self)@, x, result, carry),
    {
        self.v[15] = if carry { 1 } else { 0 };
        self.v[x as usize] = result;
        assert(self@ =~= set_with_flag(old(self)@, x, result, carry));
    }

    /// Skips the next instruction when `cond` holds.
    fn skip_next_when(&mut self, cond: bool)
        requires
            old(self).pc <= 4096,
        ensures
            final(self)@ == skip_when(old(self)@, cond),
    {
        if cond {
            self.pc = self.pc + 2;
        }
    }

    /// Sets register `x` to `val`.
    fn write_reg(&mut self, x: u8, val: u8)
        requires
            x < 16,
        ensures
            final(self)@ == set_reg(old(self)@, x, val),
    {
        self.v[x as usize] = val;
        assert(self@ =~= set_reg(old(self)@, x, val));
    }

    /// Control flow: screen clear, return, machine-code call, jumps and call.
    fn exec_control(&mut self, ins: Instruction) -> (r: bool)
        requires
            ins.wf(),
            fetchable(old(self).pc),
            ins is ClearScreen || ins is Return || ins is MachineCall || ins is Jump || ins is Call
                || ins is JumpOffset,
            ins is Return ==> old(self).stack@.len() > 0,
            ins is Call ==> old(self).stack@.len() < STACK_CAPACITY,
        ensures
            execute_spec(old(self)@, ins, 0) == Ok::<(Machine, bool), Fault>((final(self)@, r)),
    {
        self.pc = self.pc + 2;
        match ins {
            Instruction::ClearScreen => {
                self.screen = [false; 2048];
                assert(self.screen@ =~= Seq::new(2048, |p: int| false));
                true
            },
            Instruction::Return => {
                let ret = self.stack.pop().unwrap();
                self.pc = ret;
                false
            },
            Instruction::Jump { addr } => {
                self.pc = addr;
                false
            },
            Instruction::Call { addr } => {
                let ret = self.pc;
                self.stack.push(ret);
                self.pc = addr;
                false
            },
            Instruction::JumpOffset { addr } => {
                self.pc = addr + self.v[0] as u16;
                false
            },
            _ => false,
        }
    }

    /// Conditional skips on registers, immediates and keys.
    fn exec_skip(&mut self, ins: Instruction)
        requires
            ins.wf(),
            fetchable(old(self).pc),
            ins is SkipEqImm || ins is SkipNeImm || ins is SkipEqReg || ins is SkipNeReg
                || ins is SkipKeyPressed || ins is SkipKeyNotPressed,
        ensures
            execute_spec(old(self)@, ins, 0) == Ok::<(Machine, bool), Fault>((final(self)@, false)),
    {
        self.pc = self.pc + 2;
        let c = match ins {
            Instruction::SkipEqImm { x, value } => self.v[x as usize] == value,
            Instruction::SkipNeImm { x, value } => self.v[x as usize] != value,
            Instruction::SkipEqReg { x, y } => self.v[x as usize] == self.v[y as usize],
            Instruction::SkipNeReg { x, y } => self.v[x as usize] != self.v[y as usize],
            Instruction::SkipKeyPressed { x } => self.keyboard.is_key_pressed(self.v[x as usize]),
            Instruction::SkipKeyNotPressed { x } => !self.keyboard.is_key_pressed(self.v[x as usize]),
            _ => false,
        };
        self.skip_next_when(c);
    }

    /// Register loads and the flagless register operations.
    #[verifier::rlimit(40)]
    fn exec_load(&mut self, ins: Instruction, rnd: u8)
        requires
            ins.wf(),
            fetchable(old(self).pc),
            ins is LoadImm || ins is AddImm || ins is Copy || ins is Or || ins is And || ins is Xor
                || ins is Random || ins is ReadDelay,
        ensures
            execute_spec(old(self)@, ins, rnd) == Ok::<(Machine, bool), Fault>((final(self)@, false)),
    {
        self.pc = self.pc + 2;
        match ins {
            Instruction::LoadImm { x, value } => self.write_reg(x, value),
            Instruction::AddImm { x, value } => {
                let sum = self.v[x as usize].wrapping_add(value);
                self.write_reg(x, sum);
            },
            Instruction::Copy { x, y } => {
                let val = self.v[y as usize];
                self.write_reg(x, val);
            },
            Instruction::Or { x, y } => {
                let val = self.v[x as usize] | self.v[y as usize];
                self.write_reg(x, val);
            },
            Instruction::And { x, y } => {
                let val = self.v[x as usize] & self.v[y as usize];
                self.write_reg(x, val);
            },
            Instruction::Xor { x, y } => {
                let val = self.v[x as usize] ^ self.v[y as usize];
                self.write_reg(x, val);
            },
            Instruction::Random { x, mask } => self.write_reg(x, rnd & mask),
            Instruction::ReadDelay { x } => {
                let val = self.delay_timer;
                self.write_reg(x, val);
            },
            _ => {},
        }
    }

    /// Arithmetic and shifts that report through `VF`.
    fn exec_arith(&mut self, ins: Instruction)
        requires
            ins.wf(),
            fetchable(old(self).pc),
            ins is AddReg || ins is SubReg || ins is SubReverse || ins is ShiftRight || ins is ShiftLeft,
        ensures
            execute_spec(old(self)@, ins, 0) == Ok::<(Machine, bool), Fault>((final(self)@, false)),
    {
        self.pc = self.pc + 2;
        match ins {
            Instruction::AddReg { x, y } => {
                let sum = self.v[x as usize] as u16 + self.v[y as usize] as u16;
                self.set_flagged(x, (sum % 256) as u8, sum >= 256);
            },
            Instruction::SubReg { x, y } => {
                let (a, b) = (self.v[x as usize], self.v[y as usize]);
                self.set_flagged(x, wrapping_diff(a, b), a >= b);
            },
            Instruction::SubReverse { x, y } => {
                let (a, b) = (self.v[x as usize], self.v[y as usize]);
                self.set_flagged(x, wrapping_diff(b, a), b >= a);
            },
            Instruction::ShiftRight { x } => {
                let (val, out) = halve(self.v[x as usize]);
                self.set_flagged(x, val, out);
            },
            Instruction::ShiftLeft { x } => {
                let (val, out) = double(self.v[x as usize]);
                self.set_flagged(x, val, out);
            },
            _ => {},
        }
    }

    /// The address register, the timers, memory transfers and drawing.
    fn exec_memory(&mut self, ins: Instruction) -> (r: bool)
        requires
            ins.wf(),
            fetchable(old(self).pc),
            ins is LoadIndex || ins is SetDelay || ins is SetSound || ins is FontAddress || ins is StoreBcd
                || ins is StoreRegisters || ins is LoadRegisters || ins is Draw,
        ensures
            execute_spec(old(self)@, ins, 0) == Ok::<(Machine, bool), Fault>((final(self)@, r)),
    {
        self.pc = self.pc + 2;
        match ins {
            Instruction::LoadIndex { addr } => {
                self.i = addr;
                false
            },
            Instruction::SetDelay { x } => {
                self.delay_timer = self.v[x as usize];
                false
            },
            Instruction::SetSound { x } => {
                self.sound_timer = self.v[x as usize];
                false
            },
            Instruction::FontAddress { x } => {
                self.i = self.v[x as usize] as u16 * GLYPH_SIZE;
                false
            },
            Instruction::StoreBcd { x } => {
                let val = self.v[x as usize];
                let base = self.i as usize;
                self.memory[base % 4096] = val / 100;
                self.memory[(base + 1) % 4096] = (val / 10) % 10;
                self.memory[(base + 2) % 4096] = val % 10;
                false
            },
            Instruction::StoreRegisters { x } => {
                store_registers(&mut self.memory, &self.v, self.i, x);
                false
            },
            Instruction::LoadRegisters { x } => {
                load_registers(&mut self.v, &self.memory, self.i, x);
                false
            },
            Instruction::Draw { x, y, n } => {
                let (vx, vy) = (self.v[x as usize], self.v[y as usize]);
                let collided = draw_sprite(&mut self.screen, &self.memory, self.i, vx, vy, n);
                self.v[15] = if collided { 1 } else { 0 };
                true
            },
            _ => false,
        }
    }

    /// Executes `ins` as the instruction at the program counter; `rnd` is the
    /// random byte for a random instruction. On a fault nothing changes.
    /// Returns whether the framebuffer is to be presented.
    pub fn execute(&mut self, ins: Instruction, rnd: u8) -> (r: Result<bool, Fault>)
        requires
            ins.wf(),
        ensures
            (final(self)@, r) == outcome(old(self)@, execute_spec(old(self)@, ins, rnd)),
    {
        let at = self.pc;
        if at >= 4095 {
            return Err(Fault::PcOutOfRange { pc: at });
        }
        match ins {
            Instruction::ClearScreen
            | Instruction::MachineCall { .. }
            | Instruction::Jump { .. }
            | Instruction::JumpOffset { .. } => Ok(self.exec_control(ins)),
            Instruction::Return => {
                if self.stack.len() == 0 {
                    Err(Fault::StackUnderflow { address: at })
                } else {
                    Ok(self.exec_control(ins))
                }
            },
            Instruction::Call { .. } => {
                if self.stack.len() >= STACK_CAPACITY {
                    Err(Fault::StackOverflow { address: at })
                } else {
                    Ok(self.exec_control(ins))
                }
            },
            Instruction::SkipEqImm { .. }
            | Instruction::SkipNeImm { .. }
            | Instruction::SkipEqReg { .. }
            | Instruction::SkipNeReg { .. }
            | Instruction::SkipKeyPressed { .. }
            | Instruction::SkipKeyNotPressed { .. } => {
                self.exec_skip(ins);
                Ok(false)
            },
            Instruction::LoadImm { .. }
            | Instruction::AddImm { .. }
            | Instruction::Copy { .. }
            | Instruction::Or { .. }
            | Instruction::And { .. }
            | Instruction::Xor { .. }
            | Instruction::Random { .. }
            | Instruction::ReadDelay { .. } => {
                self.exec_load(ins, rnd);
                Ok(false)
            },
            Instruction::AddReg { .. }
            | Instruction::SubReg { .. }
            | Instruction::SubReverse { .. }
            | Instruction::ShiftRight { .. }
            | Instruction::ShiftLeft { .. } => {
                self.exec_arith(ins);
                Ok(false)
            },
            Instruction::LoadIndex { .. }
            | Instruction::SetDelay { .. }
            | Instruction::SetSound { .. }
            | Instruction::FontAddress { .. }
            | Instruction::StoreBcd { .. }
            | Instruction::StoreRegisters { .. }
            | Instruction::LoadRegisters { .. }
            | Instruction::Draw { .. } => Ok(self.exec_memory(ins)),
        }
    }

    /// Fetches the instruction word at the program counter, decodes it and
    /// executes it; `rnd` is the random byte for a random instruction. On a
    /// fault nothing changes. Returns whether the framebuffer is to be
    /// presented.
    pub fn step(&mut self, rnd: u8) -> (r: Result<bool, Fault>)
        ensures
            (final(self)@, r) == outcome(old(self)@, step_spec(old(self)@, rnd)),
    {
        let at = self.pc;
        if at >= 4095 {
            return Err(Fault::PcOutOfRange { pc: at });
        }
        let (hi, lo) = (self.memory[at as usize], self.memory[at as usize + 1]);
        let word = ((hi as u16) << 8) | lo as u16;
        assert(word == hi * 256 + lo) by (bit_vector)
            requires
                word == ((hi as u16) << 8u16) | lo as u16,
        ;
        assert(word == fetch(self@));
        match decode(word) {
            None => Err(Fault::Decode { address: at, word }),
            Some(ins) => self.execute(ins, rnd),
        }
    }

    /// One step with a byte drawn from the process-wide random source.
    pub fn execute_op(&mut self) -> (r: Result<bool, Fault>)
        ensures
            exists|rnd: u8| (final(self)@, r) == outcome(old(self)@, step_spec(old(self)@, rnd)),
    {
        let rnd = random_byte();
        self.step(rnd)
    }

    /// Lowers each timer by one where it is above zero.
    pub fn tick_timers(&mut self)
        ensures
            final(self)@ == ticked(old(self)@),
    {
        if self.delay_timer > 0 {
            self.delay_timer = self.delay_timer - 1;
        }
        if self.sound_timer > 0 {
            self.sound_timer = self.sound_timer - 1;
        }
    }

    /// One driver cycle: a step, then a timer tick if the step succeeded.
    pub fn cycle(&mut self, rnd: u8) -> (r: Result<bool, Fault>)
        ensures
            (final(self)@, r) == outcome(old(self)@, cycle_spec(old(self)@, rnd)),
    {
        let r = self.step(rnd);
        if r.is_ok() {
            self.tick_timers();
        }
        r
    }

    /// One cycle of a run: takes the keys that the physical labels in
    /// `pressed` stand for as the keypad state, then steps with a byte drawn
    /// from the process-wide random source and ticks the timers if the step
    /// succeeded.
    pub fn run_cycle(&mut self, pressed: &Vec<char>) -> (r: Result<bool, Fault>)
        ensures
            exists|rnd: u8|
                (final(self)@, r) == outcome(
                    with_keys(old(self)@, pressed@),
                    cycle_spec(with_keys(old(self)@, pressed@), rnd),
                ),
    {
        self.poll_input(pressed);
        let rnd = random_byte();
        self.cycle(rnd)
    }

    /// Whether a run goes on after `cycles_ran` cycles: the program counter
    /// is still in memory and the budget, if any, is not used up.
    pub fn should_continue(&self, cycles_ran: u64, budget: Option<u64>) -> (r: bool)
        ensures
            r == (self@.pc < MEMORY_SIZE && match budget {
                Some(b) => cycles_ran < b,
                None => true,
            }),
    {
        if self.pc as usize >= MEMORY_SIZE {
            return false;
        }
        match budget {
            Some(b) => cycles_ran < b,
            None => true,
        }
    }

    /// Copies the image into program space, from the load address to the
    /// end of memory.
    pub fn load_rom(&mut self, rom: ROM)
        ensures
            final(self)@ == (Machine {
                memory: old(self)@.memory.subrange(0, PROGRAM_START as int) + rom.data@,
                ..old(self)@
            }),
    {
        let ghost before = self.memory@;
        let mut k: usize = 0;
        while k < PROGRAM_CAPACITY
            invariant
                k <= PROGRAM_CAPACITY,
                before == old(self)@.memory,
                self@ == (Machine { memory: self@.memory, ..old(self)@ }),
                before.len() == 4096,
                self.memory@.len() == 4096,
                forall|a: int| 0 <= a < 512 ==> #[trigger] self.memory@[a] == before[a],
                forall|j: int| 0 <= j < k ==> #[trigger] self.memory@[512 + j] == rom.data@[j],
                forall|j: int| k <= j < PROGRAM_CAPACITY ==> #[trigger] self.memory@[512 + j] == before[512 + j],
            decreases PROGRAM_CAPACITY - k,
        {
            self.memory[512 + k] = rom.data[k];
            k += 1;
        }
        assert(self.memory@ =~= before.subrange(0, PROGRAM_START as int) + rom.data@) by {
            assert forall|a: int| 512 <= a < 4096 implies #[trigger] self.memory@[a] == rom.data@[a - 512] by {
                assert(self.memory@[512 + (a - 512)] == rom.data@[a - 512]);
            }
        }
    }

    /// Turns instruction tracing on.
    pub fn enable_debug(&mut self)
        ensures
            final(self)@ == (Machine { tracing: true, ..old(self)@ }),
    {
        self.debug_mode = true;
    }

    /// Writes the hexadecimal font into the first 80 bytes of memory.
    pub fn load_fontset(&mut self)
        ensures
            final(self)@ == (Machine { memory: font() + old(self)@.memory.subrange(80, 4096), ..old(self)@ }),
    {
        let glyphs = font_bytes();
        let ghost before = self.memory@;
        let mut k: usize = 0;
        while k < 80
            invariant
                k <= 80,
                glyphs@ == font(),
                before == old(self)@.memory,
                self@ == (Machine { memory: self@.memory, ..old(self)@ }),
                before.len() == 4096,
                self.memory@.len() == 4096,
                forall|j: int| 0 <= j < k ==> #[trigger] self.memory@[j] == font()[j],
                forall|a: int| k <= a < 4096 ==> #[trigger] self.memory@[a] == before[a],
            decreases 80 - k,
        {
            self.memory[k] = glyphs[k];
            k += 1;
        }
        assert(self.memory@ =~= font() + before.subrange(80, 4096));
    }

    /// Replaces the keypad state by the keys that the physical labels in
    /// `pressed` stand for.
    pub fn poll_input(&mut self, pressed: &Vec<char>)
        ensures
            final(self)@ == with_keys(old(self)@, pressed@),
    {
        self.keyboard.get_input(pressed);
    }

    /// The framebuffer as colours, row by row, ready for a renderer.
    pub fn output_buffer(&self) -> (buf: Vec<u32>)
        ensures
            buf@.len() == SCREEN_SIZE,
            forall|p: int| 0 <= p < SCREEN_SIZE ==> buf@[p] == color_of(#[trigger] self@.screen[p]),
    {
        let mut buf: Vec<u32> = Vec::with_capacity(SCREEN_SIZE);
        let mut p: usize = 0;
        while p < SCREEN_SIZE
            invariant
                p <= SCREEN_SIZE,
                self.screen@.len() == SCREEN_SIZE,
                buf@.len() == p,
                forall|j: int| 0 <= j < p ==> buf@[j] == color_of(#[trigger] self.screen@[j]),
            decreases SCREEN_SIZE - p,
        {
            buf.push(pixel_color(self.screen[p]));
            p += 1;
        }
        buf
    }

    /// The program counter.
    pub fn pc(&self) -> (r: u16)
        ensures
            r == self@.pc,
    {
        self.pc
    }

    /// The address register `I`.
    pub fn index(&self) -> (r: u16)
        ensures
            r == self@.i,
    {
        self.i
    }

    /// Register `Vx`.
    pub fn register(&self, x: u8) -> (r: u8)
        requires
            x < 16,
        ensures
            r == self@.v[x as int],
    {
        self.v[x as usize]
    }

    /// Sets register `Vx` to `val`.
    pub fn set_register(&mut self, x: u8, val: u8)
        requires
            x < 16,
        ensures
            final(self)@ == set_reg(old(self)@, x, val),
    {
        self.write_reg(x, val);
    }

    /// The byte at address `addr`.
    pub fn memory_at(&self, addr: u16) -> (r: u8)
        requires
            addr < 4096,
        ensures
            r == self@.memory[addr as int],
    {
        self.memory[addr as usize]
    }

    /// The delay timer.
    pub fn delay_timer(&self) -> (r: u8)
        ensures
            r == self@.delay_timer,
    {
        self.delay_timer
    }

    /// Sets the delay timer.
    pub fn set_delay_timer(&mut self, val: u8)
        ensures
            final(self)@ == (Machine { delay_timer: val, ..old(self)@ }),
    {
        self.delay_timer = val;
    }

    /// The sound timer.
    pub fn sound_timer(&self) -> (r: u8)
        ensures
            r == self@.sound_timer,
    {
        self.sound_timer
    }

    /// How many return addresses the stack holds.
    pub fn stack_depth(&self) -> (r: usize)
        ensures
            r == self@.stack.len(),
    {
        self.stack.len()
    }

    /// Whether the pixel at column `x`, row `y` is lit.
    pub fn pixel(&self, x: usize, y: usize) -> (r: bool)
        requires
            x < SCREEN_WIDTH,
            y < SCREEN_HEIGHT,
        ensures
            r == self@.screen[y * SCREEN_WIDTH + x],
    {
        self.screen[y * SCREEN_WIDTH + x]
    }

    /// Whether instruction tracing is on.
    pub fn debug_enabled(&self) -> (r: bool)
        ensures
            r == self@.tracing,
    {
        self.debug_mode
    }

    /// Whether the program counter has left memory, which ends a run.
    pub fn is_halted(&self) -> (r: bool)
        ensures
            r == (self@.pc >= MEMORY_SIZE),
    {
        self.pc as usize >= MEMORY_SIZE
    }
}

/// The font as bytes.
fn font_bytes() -> (r: Vec<u8>)
    ensures
        r@ == font(),
{
    let r = vec![
        0xF0u8, 0x90, 0x90, 0x90, 0xF0, // 0
        0x20, 0x60, 0x20, 0x20, 0x70, // 1
        0xF0, 0x10, 0xF0, 0x80, 0xF0, // 2
        0xF0, 0x10, 0xF0, 0x10, 0xF0, // 3
        0x90, 0x90, 0xF0, 0x10, 0x10, // 4
        0xF0, 0x80, 0xF0, 0x10, 0xF0, // 5
        0xF0, 0x80, 0xF0, 0x90, 0xF0, // 6
        0xF0, 0x10, 0x20, 0x40, 0x40, // 7
        0xF0, 0x90, 0xF0, 0x90, 0xF0, // 8
        0xF0, 0x90, 0xF0, 0x10, 0xF0, // 9
        0xF0, 0x90, 0xF0, 0x90, 0x90, // A
        0xE0, 0x90, 0xE0, 0x90, 0xE0, // B
        0xF0, 0x80, 0x80, 0x80, 0xF0, // C
        0xE0, 0x90, 0x90, 0x90, 0xE0, // D
        0xF0, 0x80, 0xF0, 0x80, 0xF0, // E
        0xF0, 0x80, 0xF0, 0x80, 0x80, // F
    ];
    assert(r@ =~= font());
    r
}


/// Relies on `rand::random::<u8>`: a byte from the thread-local generator.
/// Nothing is known of its value.
#[verifier::external_body]
fn random_byte() -> u8 {
    rand::random::<u8>()
}

} // verus!
