use lysergic_tokenizer::addr::{system_program_id, Addr};
use lysergic_tokenizer::pda::{
    derive_associated_account_address, derive_principal_mint_address, derive_tokenizer_address,
    derive_yield_mint_address,
};
use solana_program::pubkey::Pubkey;

fn addr(b: u8) -> Addr {
    Addr::new([b; 32])
}

#[test]
fn tokenizer_address_matches_platform_derivation() {
    let program = addr(9);
    let mint = addr(2);
    let expiry: i64 = 1_700_000_000;
    let (derived, bump) = derive_tokenizer_address(&program, &mint, expiry).unwrap();
    let program_pk = Pubkey::new_from_array(program.bytes);
    let (expected, expected_bump) = Pubkey::find_program_address(
        &[b"tokenizer", &mint.bytes, &expiry.to_le_bytes()],
        &program_pk,
    );
    assert_eq!(derived.bytes, expected.to_bytes());
    assert_eq!(bump, expected_bump);
}

#[test]
fn mint_addresses_match_platform_derivation() {
    let program = addr(9);
    let tokenizer = addr(11);
    let program_pk = Pubkey::new_from_array(program.bytes);
    let (p, pb) = derive_principal_mint_address(&program, &tokenizer).unwrap();
    let (pe, peb) =
        Pubkey::find_program_address(&[b"principal", &tokenizer.bytes], &program_pk);
    assert_eq!(p.bytes, pe.to_bytes());
    assert_eq!(pb, peb);
    let (y, yb) = derive_yield_mint_address(&program, &tokenizer).unwrap();
    let (ye, yeb) = Pubkey::find_program_address(&[b"yield", &tokenizer.bytes], &program_pk);
    assert_eq!(y.bytes, ye.to_bytes());
    assert_eq!(yb, yeb);
}

#[test]
fn associated_account_matches_platform_convention() {
    let owner = addr(4);
    let mint = addr(2);
    let (derived, _bump) = derive_associated_account_address(&owner, &mint).unwrap();
    let expected = spl_associated_token_account::get_associated_token_address(
        &Pubkey::new_from_array(owner.bytes),
        &Pubkey::new_from_array(mint.bytes),
    );
    assert_eq!(derived.bytes, expected.to_bytes());
}

#[test]
fn system_identity_matches_the_platform_singleton() {
    assert_eq!(system_program_id().bytes, [0u8; 32]);
    assert_eq!(
        system_program_id().bytes,
        solana_system_interface::program::id().to_bytes()
    );
}

#[test]
fn derivation_is_stable_across_repeated_calls() {
    let program = addr(9);
    let mint = addr(2);
    let expiry: i64 = 1_700_000_000;
    let first = derive_tokenizer_address(&program, &mint, expiry).unwrap();
    let second = derive_tokenizer_address(&program, &mint, expiry).unwrap();
    assert_eq!(first.0.bytes, second.0.bytes);
    assert_eq!(first.1, second.1);
}

#[test]
fn distinct_pairs_derive_distinct_addresses() {
    let program = addr(9);
    let by_mint_a = derive_tokenizer_address(&program, &addr(2), 1_700_000_000).unwrap();
    let by_mint_b = derive_tokenizer_address(&program, &addr(3), 1_700_000_000).unwrap();
    let later = derive_tokenizer_address(&program, &addr(2), 1_700_000_001).unwrap();
    assert_ne!(by_mint_a.0.bytes, by_mint_b.0.bytes);
    assert_ne!(by_mint_a.0.bytes, later.0.bytes);
}
