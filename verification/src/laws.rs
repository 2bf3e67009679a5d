//! What holds of the wire layouts and of the handler, for every value.

use crate::error::CounterError;
use crate::instruction::Instruction;
use crate::processor::transition;
use crate::state::CounterState;
use crate::wire::{le_bytes, lemma_le_bytes_of_value, lemma_le_value_of_bytes};
use vstd::prelude::*;

verus! {

/// Encoding a state and decoding the bytes gives the same count back.
pub proof fn law_state_round_trip(state: CounterState)
    ensures
        state.spec_encode().len() == 4,
        CounterState::spec_decode(state.spec_encode()) == Ok::<CounterState, CounterError>(state),
        CounterState::spec_decode(state.spec_encode())->Ok_0.count == state.count,
{
    lemma_le_value_of_bytes(state.count);
}

/// Encoding an instruction and decoding the bytes gives the same tag and the
/// same amount back.
pub proof fn law_instruction_round_trip(instruction: Instruction)
    ensures
        instruction.spec_encode().len() == 5,
        Instruction::spec_decode(instruction.spec_encode()) == Ok::<Instruction, CounterError>(
            instruction,
        ),
        Instruction::spec_decode(instruction.spec_encode())->Ok_0.spec_tag()
            == instruction.spec_tag(),
        Instruction::spec_decode(instruction.spec_encode())->Ok_0.spec_amount()
            == instruction.spec_amount(),
{
    let bytes = instruction.spec_encode();
    lemma_le_value_of_bytes(instruction.spec_amount());
    assert(bytes.subrange(1, 5) =~= le_bytes(instruction.spec_amount()));
}

/// Bytes that decode as a state are the encoding of that state: a state has
/// one wire form only.
pub proof fn law_state_encoding_unique(bytes: Seq<u8>)
    requires
        CounterState::spec_decode(bytes) is Ok,
    ensures
        CounterState::spec_decode(bytes)->Ok_0.spec_encode() == bytes,
{
    lemma_le_bytes_of_value(bytes);
}

/// Bytes that decode as an instruction are the encoding of that instruction:
/// an instruction has one wire form only.
pub proof fn law_instruction_encoding_unique(bytes: Seq<u8>)
    requires
        Instruction::spec_decode(bytes) is Ok,
    ensures
        Instruction::spec_decode(bytes)->Ok_0.spec_encode() == bytes,
{
    lemma_le_bytes_of_value(bytes.subrange(1, 5));
    assert(Instruction::spec_decode(bytes)->Ok_0.spec_encode() =~= bytes);
}

/// Handling an encoded instruction on an encoded state stores the encoding
/// of the state that the instruction leads to, and those bytes decode as it.
pub proof fn law_transition_applies(state: CounterState, instruction: Instruction)
    ensures
        transition(state.spec_encode(), instruction.spec_encode()) == Ok::<
            Seq<u8>,
            CounterError,
        >(state.spec_apply(instruction).spec_encode()),
        CounterState::spec_decode(state.spec_apply(instruction).spec_encode()) == Ok::<
            CounterState,
            CounterError,
        >(state.spec_apply(instruction)),
{
    law_state_round_trip(state);
    law_instruction_round_trip(instruction);
    law_state_round_trip(state.spec_apply(instruction));
}

/// Whatever an invocation stores is as long as what was stored before.
pub proof fn law_transition_keeps_length(data: Seq<u8>, instruction_data: Seq<u8>)
    requires
        transition(data, instruction_data) is Ok,
    ensures
        transition(data, instruction_data)->Ok_0.len() == data.len(),
{
}

/// An encoded increment by `amount`, handled on the encoding of `count`,
/// stores the encoding of `count + amount` taken modulo 2^32: the plain sum
/// wherever that fits in 32 bits, and the sum less 2^32 where it does not.
pub proof fn law_increment_stores_sum(count: u32, amount: u32)
    ensures
        transition(
            (CounterState { count }).spec_encode(),
            Instruction::Increment(amount).spec_encode(),
        ) == Ok::<Seq<u8>, CounterError>(
            (CounterState { count: ((count + amount) % 0x1_0000_0000) as u32 }).spec_encode(),
        ),
        CounterState::spec_decode(
            (CounterState { count: ((count + amount) % 0x1_0000_0000) as u32 }).spec_encode(),
        ) == Ok::<CounterState, CounterError>(
            (CounterState { count: ((count + amount) % 0x1_0000_0000) as u32 }),
        ),
        count + amount <= u32::MAX ==> (count + amount) % 0x1_0000_0000 == count + amount,
        count + amount > u32::MAX ==> (count + amount) % 0x1_0000_0000 == count + amount
            - 0x1_0000_0000,
{
    law_transition_applies(CounterState { count }, Instruction::Increment(amount));
}

/// An encoded decrement by `amount`, handled on the encoding of `count`,
/// stores the encoding of `count - amount` taken modulo 2^32: the plain
/// difference wherever `amount` is at most `count`, and the difference plus
/// 2^32 where it is more.
pub proof fn law_decrement_stores_difference(count: u32, amount: u32)
    ensures
        transition(
            (CounterState { count }).spec_encode(),
            Instruction::Decrement(amount).spec_encode(),
        ) == Ok::<Seq<u8>, CounterError>(
            (CounterState { count: ((count - amount) % 0x1_0000_0000) as u32 }).spec_encode(),
        ),
        CounterState::spec_decode(
            (CounterState { count: ((count - amount) % 0x1_0000_0000) as u32 }).spec_encode(),
        ) == Ok::<CounterState, CounterError>(
            (CounterState { count: ((count - amount) % 0x1_0000_0000) as u32 }),
        ),
        amount <= count ==> (count - amount) % 0x1_0000_0000 == count - amount,
        amount > count ==> (count - amount) % 0x1_0000_0000 == count - amount + 0x1_0000_0000,
{
    law_transition_applies(CounterState { count }, Instruction::Decrement(amount));
}

} // verus!
