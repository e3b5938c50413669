//! Account identities, and how one is read from the bytes of a public key.

use vstd::prelude::*;
use parity_scale_codec::Decode;

verus! {

/// The identity of a caller: an opaque value that is only ever compared for
/// equality.
pub type AccountId = u64;

/// The number that the first eight bytes of `bytes` spell, least significant
/// byte first.
pub open spec fn le_u64(bytes: Seq<u8>) -> int
    recommends
        bytes.len() >= 8,
{
    bytes[0] + bytes[1] * 0x100 + bytes[2] * 0x1_0000 + bytes[3] * 0x100_0000 + bytes[4]
        * 0x1_0000_0000 + bytes[5] * 0x100_0000_0000 + bytes[6] * 0x1_0000_0000_0000 + bytes[7]
        * 0x100_0000_0000_0000
}

/// What an account identity decodes to: the little-endian number of the first
/// eight bytes, or 0 where there are fewer than eight.
pub open spec fn account_of(bytes: Seq<u8>) -> AccountId {
    if bytes.len() >= 8 {
        le_u64(bytes) as AccountId
    } else {
        0
    }
}

/// Calls `parity_scale_codec::Decode::decode` for `u64` on a byte slice, and
/// keeps the value where there is one.
///
/// Not proved, but taken from the codec: a `u64` is read from the first eight
/// bytes of the input, least significant byte first, and bytes after them are
/// left unread; an input of fewer than eight bytes is an error.
#[verifier::external_body]
fn decode_u64(input: &[u8]) -> (decoded: Option<u64>)
    ensures
        input@.len() >= 8 ==> decoded is Some && decoded->Some_0 == le_u64(input@),
        input@.len() < 8 ==> decoded is None,
{
    let mut rest: &[u8] = input;
    u64::decode(&mut rest).ok()
}

/// Reads an account identity from `bytes`; where they do not decode, the
/// identity is the default one, 0.
pub fn decode_account(bytes: &[u8]) -> (account: AccountId)
    ensures
        account == account_of(bytes@),
{
    match decode_u64(bytes) {
        Some(account) => account,
        None => 0,
    }
}

} // verus!
