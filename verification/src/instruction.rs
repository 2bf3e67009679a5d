//! The instruction and its five-byte wire layout: a tag byte, then the amount.

use crate::codec::{read_u32, write_u32};
use crate::error::CounterError;
use crate::wire::{le_bytes, le_value};
use vstd::prelude::*;
use vstd::slice::slice_subrange;

verus! {

/// Tag byte of [`Instruction::Increment`].
pub const TAG_INCREMENT: u8 = 0;

/// Tag byte of [`Instruction::Decrement`].
pub const TAG_DECREMENT: u8 = 1;

/// Number of bytes of an encoded instruction.
pub const INSTRUCTION_LEN: usize = 5;

/// What the caller asks the counter to do.
#[derive(Clone, Copy, Debug, PartialEq, Eq, Structural)]
pub enum Instruction {
    /// Add the amount to the count.
    Increment(u32),
    /// Subtract the amount from the count.
    Decrement(u32),
}

impl Instruction {
    /// The byte that tells the two variants apart on the wire.
    pub open spec fn spec_tag(self) -> u8 {
        match self {
            Instruction::Increment(_) => TAG_INCREMENT,
            Instruction::Decrement(_) => TAG_DECREMENT,
        }
    }

    /// The amount that the variant carries.
    pub open spec fn spec_amount(self) -> u32 {
        match self {
            Instruction::Increment(amount) => amount,
            Instruction::Decrement(amount) => amount,
        }
    }

    /// The wire form: the tag, then the amount as four little-endian bytes.
    pub open spec fn spec_encode(self) -> Seq<u8> {
        seq![self.spec_tag()] + le_bytes(self.spec_amount())
    }

    /// The instruction that `bytes` stand for, if they stand for one: exactly
    /// five bytes, the first of them a known tag.
    pub open spec fn spec_decode(bytes: Seq<u8>) -> Result<Instruction, CounterError> {
        if bytes.len() != INSTRUCTION_LEN {
            Err(CounterError::MalformedInstruction)
        } else if bytes[0] == TAG_INCREMENT {
            Ok(Instruction::Increment(le_value(bytes.subrange(1, INSTRUCTION_LEN as int)) as u32))
        } else if bytes[0] == TAG_DECREMENT {
            Ok(Instruction::Decrement(le_value(bytes.subrange(1, INSTRUCTION_LEN as int)) as u32))
        } else {
            Err(CounterError::MalformedInstruction)
        }
    }

    /// The tag byte of this instruction.
    #[verifier::when_used_as_spec(spec_tag)]
    pub fn tag(self) -> (t: u8)
        ensures
            t == self.spec_tag(),
    {
        match self {
            Instruction::Increment(_) => TAG_INCREMENT,
            Instruction::Decrement(_) => TAG_DECREMENT,
        }
    }

    /// The amount of this instruction.
    #[verifier::when_used_as_spec(spec_amount)]
    pub fn amount(self) -> (a: u32)
        ensures
            a == self.spec_amount(),
    {
        match self {
            Instruction::Increment(amount) => amount,
            Instruction::Decrement(amount) => amount,
        }
    }

    /// Reads an instruction from its wire form. Anything but five bytes that
    /// start with a known tag is refused as malformed.
    pub fn decode(bytes: &[u8]) -> (r: Result<Instruction, CounterError>)
        ensures
            r == Instruction::spec_decode(bytes@),
            bytes@.len() != INSTRUCTION_LEN ==> r == Err::<Instruction, CounterError>(
                CounterError::MalformedInstruction,
            ),
            bytes@.len() > 0 && bytes@[0] != TAG_INCREMENT && bytes@[0] != TAG_DECREMENT
                ==> r == Err::<Instruction, CounterError>(CounterError::MalformedInstruction),
            r is Ok <==> bytes@.len() == INSTRUCTION_LEN
                && (bytes@[0] == TAG_INCREMENT || bytes@[0] == TAG_DECREMENT),
    {
        if bytes.len() == 0 {
            return Err(CounterError::MalformedInstruction);
        }
        let tag: u8 = bytes[0];
        let payload = slice_subrange(bytes, 1, bytes.len());
        match read_u32(payload) {
            Err(_) => Err(CounterError::MalformedInstruction),
            Ok(amount) => {
                if tag == TAG_INCREMENT {
                    Ok(Instruction::Increment(amount))
                } else if tag == TAG_DECREMENT {
                    Ok(Instruction::Decrement(amount))
                } else {
                    Err(CounterError::MalformedInstruction)
                }
            },
        }
    }

    /// Writes the instruction in its wire form.
    pub fn encode(self) -> (bytes: Vec<u8>)
        ensures
            bytes@ == self.spec_encode(),
            bytes@.len() == INSTRUCTION_LEN,
    {
        let mut bytes: Vec<u8> = Vec::new();
        bytes.push(self.tag());
        let mut field = write_u32(self.amount()).unwrap();
        bytes.append(&mut field);
        assert(bytes@ =~= self.spec_encode());
        bytes
    }
}

} // verus!
