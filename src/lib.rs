//! A small IA-32 emulator: CPU state, byte-level accessors, the ModRM
//! addressing decoder, the instruction handlers and the fetch-decode-execute
//! step, each with a machine-checked contract.
pub mod emulator;
pub mod emulator_function;
pub mod execution;
pub mod instruction;
pub mod modrm;

pub use emulator::{Emulator, Fault, Register};
pub use emulator_function::{get_code32, get_code8, get_sign_code32, get_sign_code8};
pub use instruction::{mov_r32_imm32, near_jump, short_jump};
