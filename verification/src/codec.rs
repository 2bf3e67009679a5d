//! The calls into `borsh`, which reads and writes the 32-bit fields.
//!
//! Nothing here is proved: each contract records what the `borsh` source
//! shows, in terms of [`le_value`] and [`le_bytes`].

use crate::wire::{le_bytes, le_value};
use vstd::prelude::*;

verus! {

/// `std::io::Error`, which `borsh` fails with. It is matched on as an error
/// and never looked into.
#[verifier::external_type_specification]
#[verifier::external_body]
pub struct ExIoError(std::io::Error);

/// `borsh::from_slice` at `u32`. It reads four bytes as a little-endian
/// number and fails unless the slice ends right there, so it succeeds on
/// slices of length four and on no others.
#[verifier::external_body]
pub(crate) fn read_u32(bytes: &[u8]) -> (r: Result<u32, std::io::Error>)
    ensures
        r is Ok <==> bytes@.len() == 4,
        r is Ok ==> r->Ok_0 == le_value(bytes@),
{
    borsh::from_slice::<u32>(bytes)
}

/// `borsh::to_vec` at `u32`. It writes the number's four little-endian bytes
/// into a fresh vector, which cannot fail.
#[verifier::external_body]
pub(crate) fn write_u32(value: u32) -> (r: Result<Vec<u8>, std::io::Error>)
    ensures
        r is Ok,
        r->Ok_0@ == le_bytes(value),
{
    borsh::to_vec(&value)
}

} // verus!
