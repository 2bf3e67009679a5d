//! The stored count and its four-byte wire layout.

use crate::codec::{read_u32, write_u32};
use crate::error::CounterError;
use crate::instruction::Instruction;
use crate::wire::{le_bytes, le_value};
use vstd::prelude::*;

verus! {

/// Number of bytes of an encoded state.
pub const STATE_LEN: usize = 4;

/// What an account's data holds between invocations.
#[derive(Clone, Copy, Debug, PartialEq, Eq, Structural)]
pub struct CounterState {
    /// The current value of the counter.
    pub count: u32,
}

impl CounterState {
    /// The wire form: the count as four little-endian bytes.
    pub open spec fn spec_encode(self) -> Seq<u8> {
        le_bytes(self.count)
    }

    /// The state that `bytes` stand for, if they stand for one: exactly four
    /// bytes.
    pub open spec fn spec_decode(bytes: Seq<u8>) -> Result<CounterState, CounterError> {
        if bytes.len() != STATE_LEN {
            Err(CounterError::MalformedState)
        } else {
            Ok(CounterState { count: le_value(bytes) as u32 })
        }
    }

    /// The state after `instruction`: the count plus or minus the amount,
    /// modulo 2^32. Neither overflow nor underflow is refused; both wrap around.
    pub open spec fn spec_apply(self, instruction: Instruction) -> CounterState {
        match instruction {
            Instruction::Increment(amount) => CounterState {
                count: ((self.count + amount) % 0x1_0000_0000) as u32,
            },
            Instruction::Decrement(amount) => CounterState {
                count: ((self.count - amount) % 0x1_0000_0000) as u32,
            },
        }
    }

    /// Reads a state from its wire form. Anything but four bytes is refused
    /// as malformed.
    pub fn decode(bytes: &[u8]) -> (r: Result<CounterState, CounterError>)
        ensures
            r == CounterState::spec_decode(bytes@),
            bytes@.len() != STATE_LEN ==> r == Err::<CounterState, CounterError>(
                CounterError::MalformedState,
            ),
            r is Ok <==> bytes@.len() == STATE_LEN,
    {
        match read_u32(bytes) {
            Ok(count) => Ok(CounterState { count }),
            Err(_) => Err(CounterError::MalformedState),
        }
    }

    /// Writes the state in its wire form.
    pub fn encode(self) -> (bytes: Vec<u8>)
        ensures
            bytes@ == self.spec_encode(),
            bytes@.len() == STATE_LEN,
    {
        write_u32(self.count).unwrap()
    }

    /// Carries out `instruction` on this state, wrapping around at both ends
    /// of the 32-bit range.
    pub fn apply(self, instruction: Instruction) -> (next: CounterState)
        ensures
            next == self.spec_apply(instruction),
            instruction is Increment && self.count + instruction.spec_amount() <= u32::MAX
                ==> next.count == self.count + instruction.spec_amount(),
            instruction is Decrement && self.count >= instruction.spec_amount() ==> next.count
                == self.count - instruction.spec_amount(),
    {
        match instruction {
            Instruction::Increment(amount) => CounterState {
                count: self.count.wrapping_add(amount),
            },
            Instruction::Decrement(amount) => CounterState {
                count: self.count.wrapping_sub(amount),
            },
        }
    }
}

} // verus!
