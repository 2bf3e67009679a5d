//! A counter kept in an account's four bytes, driven by five-byte instructions.
//!
//! The handler takes the first account it is given, decodes the instruction
//! and the stored count, adds or subtracts with wrap-around, and writes the new
//! count back over the old one. Every step is stated over byte sequences and
//! proved; only the 32-bit field codec of `borsh` is taken on trust.

mod codec;
pub mod error;
pub mod instruction;
pub mod laws;
pub mod processor;
pub mod state;
pub mod wire;

pub use error::CounterError;
pub use instruction::Instruction;
pub use processor::{process_instructions, Account};
pub use state::CounterState;
