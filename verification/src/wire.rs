//! The mathematical model of a little-endian 32-bit field.

use vstd::arithmetic::div_mod::lemma_fundamental_div_mod_converse;
use vstd::prelude::*;

verus! {

/// The number that four bytes stand for, least significant byte first.
pub open spec fn le_value(bytes: Seq<u8>) -> int
    recommends
        bytes.len() == 4,
{
    bytes[0] + 256 * bytes[1] + 65536 * bytes[2] + 16777216 * bytes[3]
}

/// The four bytes that stand for `value`, least significant byte first.
pub open spec fn le_bytes(value: u32) -> Seq<u8> {
    seq![
        (value % 256) as u8,
        (value / 256 % 256) as u8,
        (value / 65536 % 256) as u8,
        (value / 16777216) as u8,
    ]
}

/// Reading back the bytes written for `value` gives `value`.
pub proof fn lemma_le_value_of_bytes(value: u32)
    ensures
        le_bytes(value).len() == 4,
        le_value(le_bytes(value)) == value,
{
}

/// Writing out the number read from four bytes gives the same four bytes:
/// a number has one encoding only.
pub proof fn lemma_le_bytes_of_value(bytes: Seq<u8>)
    requires
        bytes.len() == 4,
    ensures
        0 <= le_value(bytes) <= u32::MAX,
        le_bytes(le_value(bytes) as u32) == bytes,
{
    let b0 = bytes[0] as int;
    let b1 = bytes[1] as int;
    let b2 = bytes[2] as int;
    let b3 = bytes[3] as int;
    let value = le_value(bytes);
    let upper3 = b1 + 256 * b2 + 65536 * b3;
    let upper2 = b2 + 256 * b3;
    lemma_fundamental_div_mod_converse(value, 256, upper3, b0);
    lemma_fundamental_div_mod_converse(upper3, 256, upper2, b1);
    lemma_fundamental_div_mod_converse(value, 65536, upper2, b0 + 256 * b1);
    lemma_fundamental_div_mod_converse(upper2, 256, b3, b2);
    lemma_fundamental_div_mod_converse(value, 16777216, b3, b0 + 256 * b1 + 65536 * b2);
    assert(le_bytes(value as u32) =~= bytes);
}

} // verus!
