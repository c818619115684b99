//! The little-endian layout of a 32-bit counter, and the calls into `borsh`
//! that read and write it.

use borsh::BorshDeserialize;
use vstd::prelude::*;

verus! {

/// Number of bytes that a stored `u32` occupies.
pub const U32_LEN: usize = 4;

/// The number that four bytes spell when the first byte is the least
/// significant one.
pub open spec fn le_u32(bytes: Seq<u8>) -> int
    recommends
        bytes.len() == 4,
{
    bytes[0] + 0x100 * bytes[1] + 0x1_0000 * bytes[2] + 0x100_0000 * bytes[3]
}

/// The four bytes that spell `value`, least significant byte first.
pub open spec fn u32_le_bytes(value: u32) -> Seq<u8> {
    seq![
        (value % 0x100) as u8,
        (value / 0x100 % 0x100) as u8,
        (value / 0x1_0000 % 0x100) as u8,
        (value / 0x100_0000) as u8,
    ]
}

/// Reading the bytes of a value gives the value back.
pub proof fn lemma_le_u32_of_bytes(value: u32)
    ensures
        u32_le_bytes(value).len() == 4,
        le_u32(u32_le_bytes(value)) == value,
{
}

/// Four bytes spell a number that fits in a `u32`, and writing that number
/// gives the same four bytes back.
pub proof fn lemma_bytes_of_le_u32(bytes: Seq<u8>)
    requires
        bytes.len() == 4,
    ensures
        0 <= le_u32(bytes) <= u32::MAX,
        u32_le_bytes(le_u32(bytes) as u32) == bytes,
{
    assert(u32_le_bytes(le_u32(bytes) as u32) =~= bytes);
}

/// `std::io::Error`, the error that the calls into borsh return. The
/// library only passes it through and drops it: nothing is claimed of what it
/// holds.
#[verifier::external_type_specification]
#[verifier::external_body]
pub struct ExIoError(std::io::Error);

/// `<u32 as borsh::BorshDeserialize>::try_from_slice`.
///
/// Trusted: the call succeeds exactly on slices of four bytes, and then
/// returns their little-endian value. A shorter slice runs out of input and a
/// longer one leaves bytes unread; borsh reports both as errors.
#[verifier::external_body]
pub(crate) fn borsh_u32_from_slice(bytes: &[u8]) -> (r: Result<u32, std::io::Error>)
    ensures
        r is Ok <==> bytes@.len() == 4,
        r matches Ok(value) ==> value == le_u32(bytes@),
{
    u32::try_from_slice(bytes)
}

/// `borsh::to_vec` on a `u32`.
///
/// Trusted: the call succeeds, since writing into a fresh vector cannot fail,
/// and returns the four bytes of `value`, least significant byte first.
#[verifier::external_body]
pub(crate) fn borsh_u32_to_vec(value: u32) -> (r: Result<Vec<u8>, std::io::Error>)
    ensures
        r is Ok,
        r matches Ok(bytes) ==> bytes@ == u32_le_bytes(value),
{
    borsh::to_vec(&value)
}

} // verus!
