//! An interpreter for a small two-dimensional, stack-based language in the
//! style of Befunge: the program lies on a fixed toroidal grid of characters,
//! an instruction pointer walks it in one of four cardinal directions, and a
//! single stack of integers holds the data.

pub mod position;
pub mod grid;
pub mod opcode;
pub mod arith;
pub mod engine;
