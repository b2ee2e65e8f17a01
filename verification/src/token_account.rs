//! Reading a token account's balance out of its stored bytes.
//!
//! The ledger token service stores each token account in a fixed 165-byte
//! layout; the processor only ever reads the balance field, to check
//! sufficiency before a burn and emptiness before termination.

use vstd::prelude::*;
use solana_program::program_pack::Pack;
use vstd::bytes::spec_u64_from_le_bytes;
use crate::error::TokenizerError;

verus! {

/// Size in bytes of a stored token account.
pub const TOKEN_ACCOUNT_SIZE: usize = 165;

/// An optional-field tag in the token account layout: four bytes, the
/// first zero or one, the rest zero.
pub open spec fn valid_coption_tag(data: Seq<u8>, off: int) -> bool {
    &&& (data[off] == 0 || data[off] == 1)
    &&& data[off + 1] == 0
    &&& data[off + 2] == 0
    &&& data[off + 3] == 0
}

/// A byte string that decodes as a token account: 165 bytes, the three
/// optional-field tags valid, and the state byte one of the three known
/// states.
pub open spec fn token_account_bytes_wf(data: Seq<u8>) -> bool {
    &&& data.len() == 165
    &&& valid_coption_tag(data, 72)
    &&& data[108] <= 2
    &&& valid_coption_tag(data, 109)
    &&& valid_coption_tag(data, 129)
}

/// The balance stored in a token account's bytes: little-endian at
/// offset 64.
pub open spec fn spec_token_amount(data: Seq<u8>) -> u64 {
    spec_u64_from_le_bytes(data.subrange(64, 72))
}

/// Relies on `spl_token::state::Account::unpack_from_slice`: decoding
/// succeeds exactly on well-formed 165-byte token account data, and the
/// balance is the little-endian word at offset 64.
#[verifier::external_body]
pub(crate) fn unpack_token_amount(data: &Vec<u8>) -> (r: Result<u64, TokenizerError>)
    requires
        data@.len() == 165,
    ensures
        r is Ok <==> token_account_bytes_wf(data@),
        r matches Ok(a) ==> a == spec_token_amount(data@),
        r matches Err(e) ==> e == TokenizerError::InvalidAccountData,
{
    match spl_token::state::Account::unpack_from_slice(data.as_slice()) {
        Ok(a) => Ok(a.amount),
        Err(_) => Err(TokenizerError::InvalidAccountData),
    }
}

} // verus!
