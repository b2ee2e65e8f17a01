use lysergic_tokenizer::addr::Addr;
use lysergic_tokenizer::amount::ui_amount_to_base;
use lysergic_tokenizer::error::TokenizerError;
use lysergic_tokenizer::instruction::Expiry;
use lysergic_tokenizer::state::{LysergicTokenizerState, LYSERGIC_TOKENIZER_STATE_SIZE};

fn addr(b: u8) -> Addr {
    Addr::new([b; 32])
}

fn sample_record() -> LysergicTokenizerState {
    LysergicTokenizerState {
        bump: 254,
        authority: addr(3),
        principal_token_mint: addr(5),
        yield_token_mint: addr(6),
        underlying_mint: addr(2),
        underlying_vault: addr(7),
        expiry_date: -12_345,
        fixed_apy: 42,
    }
}

#[test]
fn record_serializes_to_declared_size() {
    let bytes = sample_record().serialize();
    assert_eq!(bytes.len(), LYSERGIC_TOKENIZER_STATE_SIZE);
}

#[test]
fn record_codec_round_trips() {
    let record = sample_record();
    let bytes = record.serialize();
    let decoded = LysergicTokenizerState::deserialize(&bytes).unwrap();
    assert_eq!(decoded, record);
}

#[test]
fn record_layout_is_fixed() {
    let record = sample_record();
    let bytes = record.serialize();
    assert_eq!(bytes[0], 254);
    assert_eq!(&bytes[1..33], &[3u8; 32]);
    assert_eq!(&bytes[97..129], &[2u8; 32]);
    assert_eq!(&bytes[161..169], &(-12_345i64).to_le_bytes());
    assert_eq!(&bytes[169..177], &42u64.to_le_bytes());
}

#[test]
fn record_deserialize_rejects_wrong_size() {
    let short = vec![0u8; 176];
    assert_eq!(
        LysergicTokenizerState::deserialize(&short),
        Err(TokenizerError::InvalidAccountData)
    );
    let long = vec![0u8; 180];
    assert_eq!(
        LysergicTokenizerState::deserialize(&long),
        Err(TokenizerError::InvalidAccountData)
    );
}

#[test]
fn amount_scaling_matches_the_fixed_six_decimal_scale() {
    assert_eq!(ui_amount_to_base(0), 0);
    assert_eq!(ui_amount_to_base(5), 5_000_000);
    assert_eq!(ui_amount_to_base(5), spl_token::ui_amount_to_amount(5.0, 6));
    assert_eq!(ui_amount_to_base(100), 100_000_000);
}

#[test]
fn amount_scaling_saturates_at_the_machine_limit() {
    assert_eq!(ui_amount_to_base(u64::MAX), u64::MAX);
    assert_eq!(ui_amount_to_base(18_446_744_073_709), 18_446_744_073_709_000_000);
    assert_eq!(ui_amount_to_base(18_446_744_073_710), u64::MAX);
}


#[test]
fn expiry_descriptor_resolves_against_the_clock() {
    assert_eq!(Expiry::At { timestamp: 100 }.to_expiry_date(50), Some(100));
    assert_eq!(Expiry::At { timestamp: 100 }.to_expiry_date(100), None);
    assert_eq!(Expiry::At { timestamp: 100 }.to_expiry_date(150), None);
    assert_eq!(Expiry::After { seconds: 60 }.to_expiry_date(1_000), Some(1_060));
    assert_eq!(Expiry::After { seconds: 60 }.to_expiry_date(i64::MAX - 10), None);
}
