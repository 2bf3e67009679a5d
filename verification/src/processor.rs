//! The handler: one invocation, one state transition on the first account.

use crate::error::CounterError;
use crate::instruction::Instruction;
use crate::state::CounterState;
use solana_program::pubkey::Pubkey;
use vstd::prelude::*;

verus! {

/// `solana_program::pubkey::Pubkey`, the host's name for a program. The
/// handler is handed one and never looks into it.
#[verifier::external_type_specification]
#[verifier::external_body]
pub struct ExPubkey(Pubkey);

/// A storage slot that the host hands to the program: the account's data,
/// which the program may read and overwrite.
#[derive(Debug, PartialEq, Eq)]
pub struct Account {
    /// The bytes that the account holds.
    pub data: Vec<u8>,
}

impl View for Account {
    type V = Seq<u8>;

    open spec fn view(&self) -> Seq<u8> {
        self.data@
    }
}

/// What one invocation makes of the counter account's data, or why it is
/// refused.
///
/// The instruction is decoded before the data is, so a bad instruction is
/// reported even where the data is bad too. On success the result is the
/// encoding of the new state, which is as long as the data was.
pub open spec fn transition(data: Seq<u8>, instruction_data: Seq<u8>) -> Result<
    Seq<u8>,
    CounterError,
> {
    match Instruction::spec_decode(instruction_data) {
        Err(e) => Err(e),
        Ok(instruction) => match CounterState::spec_decode(data) {
            Err(e) => Err(e),
            Ok(state) => Ok(state.spec_apply(instruction).spec_encode()),
        },
    }
}

/// Copies `bytes` over `slot`, byte by byte, without changing its length.
fn overwrite(slot: &mut Vec<u8>, bytes: &Vec<u8>)
    requires
        old(slot)@.len() == bytes@.len(),
    ensures
        final(slot)@ == bytes@,
{
    let n: usize = bytes.len();
    let mut i: usize = 0;
    while i < n
        invariant
            n == bytes@.len(),
            slot@.len() == n,
            i <= n,
            forall|k: int| 0 <= k < i ==> slot@[k] == bytes@[k],
        decreases n - i,
    {
        slot[i] = bytes[i];
        i += 1;
    }
    assert(slot@ =~= bytes@);
}

/// Handles one invocation: takes the first account, decodes the instruction
/// and the account's stored state, applies the instruction and writes the
/// new state over the old one.
///
/// The program's own identifier plays no part in what happens. The new state
/// takes the place of the old one byte for byte, so the account's data keeps
/// its length, and no other account is touched. A refused invocation leaves
/// every account as it was.
pub fn process_instructions(
    _program_id: &Pubkey,
    accounts: &mut [Account],
    instruction_data: &[u8],
) -> (r: Result<(), CounterError>)
    ensures
        final(accounts)@.len() == old(accounts)@.len(),
        forall|i: int| 1 <= i < old(accounts)@.len() ==> final(accounts)@[i] == old(accounts)@[i],
        old(accounts)@.len() == 0 ==> r == Err::<(), CounterError>(CounterError::MissingAccount)
            && final(accounts)@ == old(accounts)@,
        old(accounts)@.len() > 0 ==> match transition(old(accounts)@[0]@, instruction_data@) {
            Ok(data) => r is Ok && final(accounts)@[0]@ == data,
            Err(e) => r == Err::<(), CounterError>(e),
        },
        r is Ok ==> final(accounts)@[0]@.len() == old(accounts)@[0]@.len(),
        r is Err ==> final(accounts)@ == old(accounts)@,
{
    if accounts.len() == 0 {
        return Err(CounterError::MissingAccount);
    }
    let instruction = Instruction::decode(instruction_data)?;
    let state = CounterState::decode(accounts[0].data.as_slice())?;
    let bytes = state.apply(instruction).encode();
    overwrite(&mut accounts[0].data, &bytes);
    Ok(())
}

} // verus!
