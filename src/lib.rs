//! A CHIP-8 virtual machine: instruction decoding, the register, memory, stack
//! and timer state machine, sprite drawing on a 64×32 monochrome framebuffer,
//! and the per-cycle driver step, all with machine-checked contracts.

pub mod color;
pub mod cpu;
pub mod draw;
pub mod frame;
pub mod instruction;
pub mod keyboard;
pub mod laws;
pub mod machine;
pub mod rom;

pub use cpu::CPU;
pub use instruction::{Instruction, decode};
pub use keyboard::Keyboard;
pub use machine::Fault;
pub use rom::ROM;
