//! Canonical address derivation.
//!
//! Every address the protocol works with is derived from a fixed seed
//! tuple: the tokenizer record from `("tokenizer", underlying mint,
//! maturity)`, each mint from its prefix and the record's address, and
//! every canonical token sub-account from the ledger's standard
//! associated-account convention.  The derivation itself is the
//! platform's one-way mapping; the seed tuples, and the check of every
//! supplied account against its derived address, are built and verified
//! here.

use vstd::prelude::*;
use vstd::bytes::{spec_u64_to_le_bytes, u64_to_le_bytes, lemma_auto_spec_u64_to_from_le_bytes};
use crate::addr::Addr;

verus! {

/// What the platform's program-derived-address search returns for a seed
/// tuple and a deriving program: `None` when no nonce in the search range
/// gives an off-curve address, else the address and the chosen nonce.
pub uninterp spec fn pda_of(seeds: Seq<Seq<u8>>, program_id: Seq<u8>) -> Option<(Seq<u8>, u8)>;

/// Relies on `solana_program::pubkey::Pubkey::try_find_program_address`:
/// the result is a deterministic function of the seeds and the deriving
/// program alone, and is `None` exactly when no nonce in the search range
/// yields a valid derived address.
#[verifier::external_body]
fn find_pda(seeds: &Vec<Vec<u8>>, program_id: &Addr) -> (r: Option<(Addr, u8)>)
    ensures
        match r {
            Some((a, bump)) => pda_of(seeds.deep_view(), program_id@) == Some((a@, bump)),
            None => pda_of(seeds.deep_view(), program_id@) is None,
        },
{
    let seed_refs: Vec<&[u8]> = seeds.iter().map(|s| s.as_slice()).collect();
    let pk = solana_program::pubkey::Pubkey::new_from_array(program_id.bytes);
    match solana_program::pubkey::Pubkey::try_find_program_address(&seed_refs, &pk) {
        Some((a, bump)) => Some((Addr { bytes: a.to_bytes() }, bump)),
        None => None,
    }
}

/// Relies on `spl_token::id()`: the ledger token service's singleton
/// address, fixed by the platform.
#[verifier::external_body]
pub(crate) fn token_service_id() -> (r: Addr)
    ensures
        r@ == token_service_id_bytes(),
{
    Addr { bytes: spl_token::id().to_bytes() }
}

/// The ledger token service's singleton address.
pub open spec fn token_service_id_bytes() -> Seq<u8> {
    seq![
        6u8, 221u8, 246u8, 225u8, 215u8, 101u8, 161u8, 147u8, 217u8, 203u8, 225u8, 70u8,
        206u8, 235u8, 121u8, 172u8, 28u8, 180u8, 133u8, 237u8, 95u8, 91u8, 55u8, 145u8,
        58u8, 140u8, 245u8, 133u8, 126u8, 255u8, 0u8, 169u8,
    ]
}

/// Relies on `spl_associated_token_account::id()`: the canonical-account
/// service's singleton address, fixed by the platform.
#[verifier::external_body]
pub(crate) fn associated_token_service_id() -> (r: Addr)
    ensures
        r@ == associated_token_service_id_bytes(),
{
    Addr { bytes: spl_associated_token_account::id().to_bytes() }
}

/// The canonical-account service's singleton address.
pub open spec fn associated_token_service_id_bytes() -> Seq<u8> {
    seq![
        140u8, 151u8, 37u8, 143u8, 78u8, 36u8, 137u8, 241u8, 187u8, 61u8, 16u8, 41u8,
        20u8, 142u8, 13u8, 131u8, 11u8, 90u8, 19u8, 153u8, 218u8, 255u8, 16u8, 132u8,
        4u8, 142u8, 123u8, 216u8, 219u8, 233u8, 248u8, 89u8,
    ]
}

/// The two's-complement bit pattern of a timestamp, as the platform's
/// little-endian seed encoding reads it.
pub open spec fn spec_i64_bits(x: i64) -> u64 {
    x as u64
}

/// Little-endian seed encoding of a timestamp.
pub open spec fn spec_i64_to_le_bytes(x: i64) -> Seq<u8> {
    spec_u64_to_le_bytes(spec_i64_bits(x))
}

/// Encode a timestamp as its eight little-endian bytes.
pub fn i64_to_le_bytes(x: i64) -> (r: Vec<u8>)
    ensures
        r@ == spec_i64_to_le_bytes(x),
        r@.len() == 8,
{
    proof {
        lemma_auto_spec_u64_to_from_le_bytes();
    }
    #[verifier::truncate]
    let bits: u64 = x as u64;
    u64_to_le_bytes(bits)
}

/// Reading the bit pattern back as a timestamp is the identity.
pub proof fn lemma_i64_bits_round_trip(x: i64)
    ensures
        spec_i64_bits(x) as i64 == x,
{
    assert((x as u64) as i64 == x) by (bit_vector);
}

/// Distinct timestamps have distinct bit patterns.
pub proof fn lemma_i64_bits_injective(x: i64, y: i64)
    requires
        spec_i64_bits(x) == spec_i64_bits(y),
    ensures
        x == y,
{
    lemma_i64_bits_round_trip(x);
    lemma_i64_bits_round_trip(y);
}

/// The seed prefix of a tokenizer record address.
pub open spec fn tokenizer_prefix() -> Seq<u8> {
    seq![116u8, 111u8, 107u8, 101u8, 110u8, 105u8, 122u8, 101u8, 114u8]
}

/// The seed prefix of a principal mint address.
pub open spec fn principal_prefix() -> Seq<u8> {
    seq![112u8, 114u8, 105u8, 110u8, 99u8, 105u8, 112u8, 97u8, 108u8]
}

/// The seed prefix of a yield mint address.
pub open spec fn yield_prefix() -> Seq<u8> {
    seq![121u8, 105u8, 101u8, 108u8, 100u8]
}

/// The seed tuple of the tokenizer record for an underlying mint and a
/// maturity date.
pub open spec fn tokenizer_seeds(underlying_mint: Seq<u8>, expiry_date: i64) -> Seq<Seq<u8>> {
    seq![tokenizer_prefix(), underlying_mint, spec_i64_to_le_bytes(expiry_date)]
}

/// The seed tuple of the principal mint for a tokenizer record address.
pub open spec fn principal_mint_seeds(tokenizer: Seq<u8>) -> Seq<Seq<u8>> {
    seq![principal_prefix(), tokenizer]
}

/// The seed tuple of the yield mint for a tokenizer record address.
pub open spec fn yield_mint_seeds(tokenizer: Seq<u8>) -> Seq<Seq<u8>> {
    seq![yield_prefix(), tokenizer]
}

/// The seed tuple of the canonical token sub-account of `owner` for
/// `mint`: the ledger's standard associated-account convention.
pub open spec fn associated_account_seeds(owner: Seq<u8>, mint: Seq<u8>) -> Seq<Seq<u8>> {
    seq![owner, token_service_id_bytes(), mint]
}

/// The derived tokenizer record address and nonce.
pub open spec fn tokenizer_address_of(
    program_id: Seq<u8>,
    underlying_mint: Seq<u8>,
    expiry_date: i64,
) -> Option<(Seq<u8>, u8)> {
    pda_of(tokenizer_seeds(underlying_mint, expiry_date), program_id)
}

/// The derived principal mint address and nonce.
pub open spec fn principal_mint_address_of(program_id: Seq<u8>, tokenizer: Seq<u8>) -> Option<
    (Seq<u8>, u8),
> {
    pda_of(principal_mint_seeds(tokenizer), program_id)
}

/// The derived yield mint address and nonce.
pub open spec fn yield_mint_address_of(program_id: Seq<u8>, tokenizer: Seq<u8>) -> Option<
    (Seq<u8>, u8),
> {
    pda_of(yield_mint_seeds(tokenizer), program_id)
}

/// The canonical token sub-account of `owner` for `mint`.
pub open spec fn associated_account_address_of(owner: Seq<u8>, mint: Seq<u8>) -> Option<
    (Seq<u8>, u8),
> {
    pda_of(associated_account_seeds(owner, mint), associated_token_service_id_bytes())
}

fn tokenizer_prefix_vec() -> (r: Vec<u8>)
    ensures
        r@ == tokenizer_prefix(),
{
    let r: Vec<u8> = vec![116u8, 111u8, 107u8, 101u8, 110u8, 105u8, 122u8, 101u8, 114u8];
    proof {
        assert(r@ =~= tokenizer_prefix());
    }
    r
}

fn addr_bytes_vec(a: &Addr) -> (r: Vec<u8>)
    ensures
        r@ == a@,
{
    let mut r: Vec<u8> = Vec::new();
    let mut i: usize = 0;
    while i < 32
        invariant
            0 <= i <= 32,
            r@ =~= a@.take(i as int),
        decreases 32 - i,
    {
        r.push(a.bytes[i]);
        proof {
            assert(r@ =~= a@.take(i + 1 as int));
        }
        i += 1;
    }
    proof {
        assert(r@ =~= a@);
    }
    r
}

/// Derive the tokenizer record address and nonce for an underlying mint
/// and a maturity date.
pub fn derive_tokenizer_address(program_id: &Addr, underlying_mint: &Addr, expiry_date: i64) -> (r:
    Option<(Addr, u8)>)
    ensures
        match r {
            Some((a, bump)) => tokenizer_address_of(program_id@, underlying_mint@, expiry_date)
                == Some((a@, bump)),
            None => tokenizer_address_of(program_id@, underlying_mint@, expiry_date) is None,
        },
{
    let mut seeds: Vec<Vec<u8>> = Vec::new();
    seeds.push(tokenizer_prefix_vec());
    seeds.push(addr_bytes_vec(underlying_mint));
    seeds.push(i64_to_le_bytes(expiry_date));
    proof {
        assert(seeds.deep_view() =~~= tokenizer_seeds(underlying_mint@, expiry_date));
    }
    find_pda(&seeds, program_id)
}

fn derive_prefixed_mint_address(prefix: Vec<u8>, program_id: &Addr, tokenizer: &Addr) -> (r: Option<
    (Addr, u8),
>)
    ensures
        match r {
            Some((a, bump)) => pda_of(seq![prefix@, tokenizer@], program_id@) == Some((a@, bump)),
            None => pda_of(seq![prefix@, tokenizer@], program_id@) is None,
        },
{
    let ghost p = prefix@;
    let mut seeds: Vec<Vec<u8>> = Vec::new();
    seeds.push(prefix);
    seeds.push(addr_bytes_vec(tokenizer));
    proof {
        assert(seeds.deep_view() =~~= seq![p, tokenizer@]);
    }
    find_pda(&seeds, program_id)
}

/// Derive the principal mint address and nonce for a tokenizer record.
pub fn derive_principal_mint_address(program_id: &Addr, tokenizer: &Addr) -> (r: Option<(Addr, u8)>)
    ensures
        match r {
            Some((a, bump)) => principal_mint_address_of(program_id@, tokenizer@) == Some(
                (a@, bump),
            ),
            None => principal_mint_address_of(program_id@, tokenizer@) is None,
        },
{
    let prefix: Vec<u8> = vec![112u8, 114u8, 105u8, 110u8, 99u8, 105u8, 112u8, 97u8, 108u8];
    proof {
        assert(prefix@ =~= principal_prefix());
    }
    derive_prefixed_mint_address(prefix, program_id, tokenizer)
}

/// Derive the yield mint address and nonce for a tokenizer record.
pub fn derive_yield_mint_address(program_id: &Addr, tokenizer: &Addr) -> (r: Option<(Addr, u8)>)
    ensures
        match r {
            Some((a, bump)) => yield_mint_address_of(program_id@, tokenizer@) == Some((a@, bump)),
            None => yield_mint_address_of(program_id@, tokenizer@) is None,
        },
{
    let prefix: Vec<u8> = vec![121u8, 105u8, 101u8, 108u8, 100u8];
    proof {
        assert(prefix@ =~= yield_prefix());
    }
    derive_prefixed_mint_address(prefix, program_id, tokenizer)
}

/// Derive the canonical token sub-account of `owner` for `mint`: the
/// ledger's standard associated-account convention, replicated here so
/// every caller-supplied account can be checked against it.
pub fn derive_associated_account_address(owner: &Addr, mint: &Addr) -> (r: Option<(Addr, u8)>)
    ensures
        match r {
            Some((a, bump)) => associated_account_address_of(owner@, mint@) == Some((a@, bump)),
            None => associated_account_address_of(owner@, mint@) is None,
        },
{
    let mut seeds: Vec<Vec<u8>> = Vec::new();
    seeds.push(addr_bytes_vec(owner));
    seeds.push(addr_bytes_vec(&token_service_id()));
    seeds.push(addr_bytes_vec(mint));
    proof {
        assert(seeds.deep_view() =~~= associated_account_seeds(owner@, mint@));
    }
    find_pda(&seeds, &associated_token_service_id())
}

} // verus!
