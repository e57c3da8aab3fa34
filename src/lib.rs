//! A CHIP-8 virtual machine whose instruction semantics are stated as
//! contracts and proved by Verus.
//!
//! `machine` holds the state and its model, `instruction` the decoder,
//! `semantics` what each instruction does to the model, `opcodes` the
//! executable cycle, `display` sprite drawing, `laws` properties proved of
//! the whole, and `disassembler` a listing of opcode words.

pub mod disassembler;
pub mod display;
pub mod instruction;
pub mod laws;
pub mod machine;
pub mod opcodes;
pub mod semantics;

pub use disassembler::disassemble_opcode;
pub use instruction::{decode, Instruction};
pub use machine::{Chip8, Chip8Error, Chip8View, HEIGHT, WIDTH};
