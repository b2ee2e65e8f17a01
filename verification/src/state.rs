//! The persisted tokenizer record and its fixed-size binary encoding.
//!
//! One record exists per (underlying mint, maturity) pair, stored at the
//! derived tokenizer address.  All fields are write-once: the record is
//! written during initialization and only read afterwards.

use vstd::prelude::*;
use vstd::bytes::{
    spec_u64_to_le_bytes, spec_u64_from_le_bytes, u64_to_le_bytes, u64_from_le_bytes,
    lemma_auto_spec_u64_to_from_le_bytes,
};
use crate::addr::Addr;
use crate::error::TokenizerError;
use crate::pda::{spec_i64_to_le_bytes, spec_i64_bits, i64_to_le_bytes};

verus! {

/// Size in bytes of an encoded tokenizer record: one nonce byte, five
/// 32-byte addresses, and two 8-byte little-endian integers.
pub const LYSERGIC_TOKENIZER_STATE_SIZE: usize = 177;

/// The persisted state of one tokenizer instance.
#[derive(Clone, Copy, PartialEq, Eq, Debug)]
pub struct LysergicTokenizerState {
    /// Disambiguating nonce that forces the record's derived address off
    /// the platform's reserved curve.
    pub bump: u8,
    /// The account permitted to terminate the instance after maturity.
    pub authority: Addr,
    /// Canonical mint address of the principal token.
    pub principal_token_mint: Addr,
    /// Canonical mint address of the yield token.
    pub yield_token_mint: Addr,
    /// The asset being tokenized.
    pub underlying_mint: Addr,
    /// Canonical sub-account holding deposited underlying.
    pub underlying_vault: Addr,
    /// Maturity, in seconds; fixed at creation.
    pub expiry_date: i64,
    /// Stored rate parameter; no processor rule consumes it.
    pub fixed_apy: u64,
}

/// The record's fields over mathematical values.
pub struct RecordView {
    pub bump: u8,
    pub authority: Seq<u8>,
    pub principal_token_mint: Seq<u8>,
    pub yield_token_mint: Seq<u8>,
    pub underlying_mint: Seq<u8>,
    pub underlying_vault: Seq<u8>,
    pub expiry_date: i64,
    pub fixed_apy: u64,
}

impl View for LysergicTokenizerState {
    type V = RecordView;

    open spec fn view(&self) -> RecordView {
        RecordView {
            bump: self.bump,
            authority: self.authority@,
            principal_token_mint: self.principal_token_mint@,
            yield_token_mint: self.yield_token_mint@,
            underlying_mint: self.underlying_mint@,
            underlying_vault: self.underlying_vault@,
            expiry_date: self.expiry_date,
            fixed_apy: self.fixed_apy,
        }
    }
}

/// The encoding of a record: each field in declaration order, addresses
/// as their 32 bytes, integers little-endian.
pub open spec fn record_bytes(r: RecordView) -> Seq<u8> {
    seq![r.bump] + r.authority + r.principal_token_mint + r.yield_token_mint + r.underlying_mint
        + r.underlying_vault + spec_i64_to_le_bytes(r.expiry_date) + spec_u64_to_le_bytes(
        r.fixed_apy,
    )
}

/// The record that a 177-byte encoding holds.
pub open spec fn spec_record_of(data: Seq<u8>) -> RecordView {
    RecordView {
        bump: data[0],
        authority: data.subrange(1, 33),
        principal_token_mint: data.subrange(33, 65),
        yield_token_mint: data.subrange(65, 97),
        underlying_mint: data.subrange(97, 129),
        underlying_vault: data.subrange(129, 161),
        expiry_date: spec_u64_from_le_bytes(data.subrange(161, 169)) as i64,
        fixed_apy: spec_u64_from_le_bytes(data.subrange(169, 177)),
    }
}

/// A well-formed record view: every address is 32 bytes long.
pub open spec fn record_view_wf(r: RecordView) -> bool {
    &&& r.authority.len() == 32
    &&& r.principal_token_mint.len() == 32
    &&& r.yield_token_mint.len() == 32
    &&& r.underlying_mint.len() == 32
    &&& r.underlying_vault.len() == 32
}

/// Decoding a record's encoding gives the record back.
pub proof fn lemma_record_codec_round_trip(r: RecordView)
    requires
        record_view_wf(r),
    ensures
        record_bytes(r).len() == 177,
        spec_record_of(record_bytes(r)) == r,
{
    lemma_auto_spec_u64_to_from_le_bytes();
    let data = record_bytes(r);
    assert(data.subrange(1, 33) =~= r.authority);
    assert(data.subrange(33, 65) =~= r.principal_token_mint);
    assert(data.subrange(65, 97) =~= r.yield_token_mint);
    assert(data.subrange(97, 129) =~= r.underlying_mint);
    assert(data.subrange(129, 161) =~= r.underlying_vault);
    assert(data.subrange(161, 169) =~= spec_u64_to_le_bytes(spec_i64_bits(r.expiry_date)));
    assert(data.subrange(169, 177) =~= spec_u64_to_le_bytes(r.fixed_apy));
    assert(spec_u64_from_le_bytes(data.subrange(161, 169)) == spec_i64_bits(r.expiry_date));
    crate::pda::lemma_i64_bits_round_trip(r.expiry_date);
}

impl LysergicTokenizerState {
    /// Encode the record as its 177 bytes.
    pub fn serialize(&self) -> (out: Vec<u8>)
        ensures
            out@ == record_bytes(self@),
            out@.len() == 177,
    {
        let mut out: Vec<u8> = Vec::new();
        out.push(self.bump);
        out.extend_from_slice(self.authority.bytes.as_slice());
        out.extend_from_slice(self.principal_token_mint.bytes.as_slice());
        out.extend_from_slice(self.yield_token_mint.bytes.as_slice());
        out.extend_from_slice(self.underlying_mint.bytes.as_slice());
        out.extend_from_slice(self.underlying_vault.bytes.as_slice());
        let mut tail = i64_to_le_bytes(self.expiry_date);
        out.append(&mut tail);
        let mut tail2 = u64_to_le_bytes(self.fixed_apy);
        out.append(&mut tail2);
        proof {
            lemma_auto_spec_u64_to_from_le_bytes();
            assert(out@ =~= record_bytes(self@));
        }
        out
    }

    /// Decode a record from stored account bytes.  Succeeds exactly on
    /// encodings of the declared size; the result re-encodes to the
    /// input.
    pub fn deserialize(data: &Vec<u8>) -> (r: Result<LysergicTokenizerState, TokenizerError>)
        ensures
            r is Ok <==> data@.len() == 177,
            r matches Ok(s) ==> s@ == spec_record_of(data@),
            r matches Err(e) ==> e == TokenizerError::InvalidAccountData,
    {
        if data.len() != LYSERGIC_TOKENIZER_STATE_SIZE {
            return Err(TokenizerError::InvalidAccountData);
        }
        let bump = data[0];
        let authority = read_addr(data, 1);
        let principal_token_mint = read_addr(data, 33);
        let yield_token_mint = read_addr(data, 65);
        let underlying_mint = read_addr(data, 97);
        let underlying_vault = read_addr(data, 129);
        let expiry_bits = u64_from_le_bytes(vstd::slice::slice_subrange(data.as_slice(), 161, 169));
        #[verifier::truncate]
        let expiry_date: i64 = expiry_bits as i64;
        let fixed_apy = u64_from_le_bytes(vstd::slice::slice_subrange(data.as_slice(), 169, 177));
        let s = LysergicTokenizerState {
            bump,
            authority,
            principal_token_mint,
            yield_token_mint,
            underlying_mint,
            underlying_vault,
            expiry_date,
            fixed_apy,
        };
        Ok(s)
    }
}

/// Copy the 32 bytes at `off` out of `data` as an address.
fn read_addr(data: &Vec<u8>, off: usize) -> (r: Addr)
    requires
        off + 32 <= data@.len(),
    ensures
        r@ == data@.subrange(off as int, off + 32),
{
    let n = data.len();
    let mut bytes = [0u8; 32];
    let mut i: usize = 0;
    while i < 32
        invariant
            0 <= i <= 32,
            off + 32 <= n == data@.len(),
            forall|j: int| 0 <= j < i ==> bytes@[j] == data@[off + j],
        decreases 32 - i,
    {
        bytes[i] = data[off + i];
        i += 1;
    }
    let r = Addr { bytes };
    proof {
        assert(r@ =~= data@.subrange(off as int, off + 32));
    }
    r
}

} // verus!
