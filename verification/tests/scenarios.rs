use lysergic_tokenizer::accounts::AccountView;
use lysergic_tokenizer::action::Action;
use lysergic_tokenizer::addr::{system_program_id, Addr};
use lysergic_tokenizer::amount::ui_amount_to_base;
use lysergic_tokenizer::error::TokenizerError;
use lysergic_tokenizer::instruction::{Expiry, TokenizerInstruction};
use lysergic_tokenizer::ledger::TokenLedger;
use lysergic_tokenizer::pda::{
    derive_associated_account_address, derive_principal_mint_address, derive_tokenizer_address,
    derive_yield_mint_address,
};
use lysergic_tokenizer::processor::{Env, ProtocolConfig, RedemptionMode, TokenizerProcessor};
use lysergic_tokenizer::state::LysergicTokenizerState;

fn addr(b: u8) -> Addr {
    Addr::new([b; 32])
}

fn token_account_data(amount: u64) -> Vec<u8> {
    let mut data = vec![0u8; 165];
    data[64..72].copy_from_slice(&amount.to_le_bytes());
    data[108] = 1;
    data
}

fn account(key: Addr, owner: Addr, is_signer: bool, data: Vec<u8>) -> AccountView {
    AccountView { key, owner, is_signer, lamports: 0, data }
}

const EXPIRY: i64 = 1_700_000_000;
const BEFORE: i64 = 1_600_000_000;
const AFTER: i64 = 1_800_000_000;

struct World {
    config: ProtocolConfig,
    env: Env,
    tokenizer: AccountView,
    authority: AccountView,
    vault: AccountView,
    umint_acct: AccountView,
    pmint_acct: AccountView,
    ymint_acct: AccountView,
    user: AccountView,
    user_underlying: AccountView,
    user_principal: AccountView,
    user_yield: AccountView,
    token_program: AccountView,
    system_program: AccountView,
    atoken_program: AccountView,
    record: LysergicTokenizerState,
}

/// A fully initialized tokenizer for mint `addr(2)` maturing at `EXPIRY`,
/// with every supplied account at its canonical derived address and the
/// user holding the given token balances.
fn world(now: i64, user_principal_held: u64, user_yield_held: u64, vault_held: u64) -> World {
    let program_id = addr(9);
    let config = ProtocolConfig { program_id };
    let umint = addr(2);
    let authority_key = addr(3);
    let user_key = addr(4);
    let (tok_key, bump) = derive_tokenizer_address(&program_id, &umint, EXPIRY).unwrap();
    let (pmint, _) = derive_principal_mint_address(&program_id, &tok_key).unwrap();
    let (ymint, _) = derive_yield_mint_address(&program_id, &tok_key).unwrap();
    let (vault_key, _) = derive_associated_account_address(&tok_key, &umint).unwrap();
    let (uu_key, _) = derive_associated_account_address(&user_key, &umint).unwrap();
    let (up_key, _) = derive_associated_account_address(&user_key, &pmint).unwrap();
    let (uy_key, _) = derive_associated_account_address(&user_key, &ymint).unwrap();
    let record = LysergicTokenizerState {
        bump,
        authority: authority_key,
        principal_token_mint: pmint,
        yield_token_mint: ymint,
        underlying_mint: umint,
        underlying_vault: vault_key,
        expiry_date: EXPIRY,
        fixed_apy: 0,
    };
    let spl = Addr::new(spl_token::id().to_bytes());
    World {
        config,
        env: Env { now, rent_minimum_record: 2_000, rent_minimum_mint: 1_500 },
        tokenizer: account(tok_key, program_id, false, record.serialize()),
        authority: account(authority_key, system_program_id(), true, Vec::new()),
        vault: account(vault_key, spl, false, token_account_data(vault_held)),
        umint_acct: account(umint, spl, false, Vec::new()),
        pmint_acct: account(pmint, spl, false, Vec::new()),
        ymint_acct: account(ymint, spl, false, Vec::new()),
        user: account(user_key, system_program_id(), true, Vec::new()),
        user_underlying: account(uu_key, spl, false, token_account_data(0)),
        user_principal: account(up_key, spl, false, token_account_data(user_principal_held)),
        user_yield: account(uy_key, spl, false, token_account_data(user_yield_held)),
        token_program: account(spl, system_program_id(), false, Vec::new()),
        system_program: account(system_program_id(), system_program_id(), false, Vec::new()),
        atoken_program: account(
            Addr::new(spl_associated_token_account::id().to_bytes()),
            system_program_id(),
            false,
            Vec::new(),
        ),
        record,
    }
}

fn initialize_args(w: &World) -> (Addr, Addr, Addr) {
    (
        w.record.underlying_mint,
        w.record.principal_token_mint,
        w.record.yield_token_mint,
    )
}

#[test]
fn initialize_tokenizer_emits_create_create_write() {
    let mut w = world(BEFORE, 0, 0, 0);
    w.tokenizer.owner = system_program_id();
    let (um, pm, ym) = initialize_args(&w);
    let acts = TokenizerProcessor::process_initialize_lysergic_tokenizer(
        &w.config,
        &w.env,
        &w.tokenizer,
        &w.authority,
        &w.vault,
        &w.umint_acct,
        &w.token_program,
        &w.system_program,
        &w.atoken_program,
        um,
        pm,
        ym,
        &Expiry::At { timestamp: EXPIRY },
        0,
    )
    .unwrap();
    assert_eq!(acts.len(), 3);
    match &acts[0] {
        Action::CreateAccount { address, lamports, space, owner, .. } => {
            assert_eq!(*address, w.tokenizer.key);
            assert_eq!(*lamports, 2_000);
            assert_eq!(*space, 177);
            assert_eq!(*owner, w.config.program_id);
        }
        other => panic!("expected CreateAccount, got {:?}", other),
    }
    match &acts[2] {
        Action::WriteRecord { account, record } => {
            assert_eq!(*account, w.tokenizer.key);
            assert_eq!(*record, w.record);
        }
        other => panic!("expected WriteRecord, got {:?}", other),
    }
}

#[test]
fn initialize_twice_fails_already_initialized() {
    let w = world(BEFORE, 0, 0, 0);
    let (um, pm, ym) = initialize_args(&w);
    let r = TokenizerProcessor::process_initialize_lysergic_tokenizer(
        &w.config,
        &w.env,
        &w.tokenizer,
        &w.authority,
        &w.vault,
        &w.umint_acct,
        &w.token_program,
        &w.system_program,
        &w.atoken_program,
        um,
        pm,
        ym,
        &Expiry::At { timestamp: EXPIRY },
        0,
    );
    assert_eq!(r, Err(TokenizerError::TokenizerAlreadyInitialized));
}

#[test]
fn initialize_rejects_wrong_tokenizer_address() {
    let mut w = world(BEFORE, 0, 0, 0);
    w.tokenizer.owner = system_program_id();
    w.tokenizer.key = addr(42);
    let (um, pm, ym) = initialize_args(&w);
    let r = TokenizerProcessor::process_initialize_lysergic_tokenizer(
        &w.config,
        &w.env,
        &w.tokenizer,
        &w.authority,
        &w.vault,
        &w.umint_acct,
        &w.token_program,
        &w.system_program,
        &w.atoken_program,
        um,
        pm,
        ym,
        &Expiry::At { timestamp: EXPIRY },
        0,
    );
    assert_eq!(r, Err(TokenizerError::IncorrectTokenizerAddress));
}

#[test]
fn initialize_rejects_past_expiry_descriptor() {
    let mut w = world(AFTER, 0, 0, 0);
    w.tokenizer.owner = system_program_id();
    let (um, pm, ym) = initialize_args(&w);
    let r = TokenizerProcessor::process_initialize_lysergic_tokenizer(
        &w.config,
        &w.env,
        &w.tokenizer,
        &w.authority,
        &w.vault,
        &w.umint_acct,
        &w.token_program,
        &w.system_program,
        &w.atoken_program,
        um,
        pm,
        ym,
        &Expiry::At { timestamp: EXPIRY },
        0,
    );
    assert_eq!(r, Err(TokenizerError::InvalidExpiryDate));
}

#[test]
fn initialize_mints_on_existing_record_emits_four_actions() {
    let w = world(BEFORE, 0, 0, 0);
    let (um, _, _) = initialize_args(&w);
    let acts = TokenizerProcessor::process_initialize_mints(
        &w.config,
        &w.env,
        &w.tokenizer,
        &w.authority,
        &w.umint_acct,
        &w.pmint_acct,
        &w.ymint_acct,
        &w.token_program,
        &w.system_program,
        um,
        &Expiry::At { timestamp: EXPIRY },
    )
    .unwrap();
    assert_eq!(acts.len(), 4);
    match &acts[2] {
        Action::InitializeMint { mint, mint_authority, decimals } => {
            assert_eq!(*mint, w.pmint_acct.key);
            assert_eq!(*mint_authority, w.tokenizer.key);
            assert_eq!(*decimals, 6);
        }
        other => panic!("expected InitializeMint, got {:?}", other),
    }
}

#[test]
fn initialize_mints_before_record_checks_derived_addresses() {
    let mut w = world(BEFORE, 0, 0, 0);
    w.tokenizer.owner = system_program_id();
    let (um, _, _) = initialize_args(&w);
    assert!(TokenizerProcessor::process_initialize_mints(
        &w.config,
        &w.env,
        &w.tokenizer,
        &w.authority,
        &w.umint_acct,
        &w.pmint_acct,
        &w.ymint_acct,
        &w.token_program,
        &w.system_program,
        um,
        &Expiry::At { timestamp: EXPIRY },
    )
    .is_ok());
    let r = TokenizerProcessor::process_initialize_mints(
        &w.config,
        &w.env,
        &w.tokenizer,
        &w.authority,
        &w.umint_acct,
        &w.ymint_acct,
        &w.pmint_acct,
        &w.token_program,
        &w.system_program,
        um,
        &Expiry::At { timestamp: EXPIRY },
    );
    assert_eq!(r, Err(TokenizerError::IncorrectPrincipalMintAddress));
}

#[test]
fn deposit_underlying_emits_one_caller_signed_transfer() {
    let w = world(BEFORE, 0, 0, 0);
    let acts = TokenizerProcessor::process_deposit_underlying(
        &w.config,
        &w.tokenizer,
        &w.vault,
        &w.user,
        &w.user_underlying,
        &w.token_program,
        25,
    )
    .unwrap();
    assert_eq!(acts.len(), 1);
    match &acts[0] {
        Action::Transfer { source, destination, authority, amount, .. } => {
            assert_eq!(*source, w.user_underlying.key);
            assert_eq!(*destination, w.vault.key);
            assert_eq!(*authority, w.user.key);
            assert_eq!(*amount, 25_000_000);
        }
        other => panic!("expected Transfer, got {:?}", other),
    }
}

#[test]
fn deposit_requires_the_callers_signature() {
    let mut w = world(BEFORE, 0, 0, 0);
    w.user.is_signer = false;
    let r = TokenizerProcessor::process_deposit_underlying(
        &w.config,
        &w.tokenizer,
        &w.vault,
        &w.user,
        &w.user_underlying,
        &w.token_program,
        25,
    );
    assert_eq!(r, Err(TokenizerError::MissingRequiredSignature));
}

#[test]
fn deposit_before_initialization_reports_the_uninitialized_record() {
    let mut w = world(BEFORE, 0, 0, 0);
    w.tokenizer.owner = system_program_id();
    w.tokenizer.data = Vec::new();
    let r = TokenizerProcessor::process_deposit_underlying(
        &w.config,
        &w.tokenizer,
        &w.vault,
        &w.user,
        &w.user_underlying,
        &w.token_program,
        25,
    );
    assert_eq!(r, Err(TokenizerError::TokenizerNotInitialized));
}

#[test]
fn tokenize_principal_succeeds_strictly_before_expiry() {
    let w = world(BEFORE, 0, 0, 0);
    let acts = TokenizerProcessor::process_tokenize_principal(
        &w.config,
        &w.tokenizer,
        &w.pmint_acct,
        &w.user,
        &w.user_principal,
        &w.token_program,
        Some(&w.system_program),
        Some(&w.atoken_program),
        7,
        BEFORE,
    )
    .unwrap();
    assert_eq!(acts.len(), 1);
    match &acts[0] {
        Action::MintTo { mint, destination, authority, amount, .. } => {
            assert_eq!(*mint, w.pmint_acct.key);
            assert_eq!(*destination, w.user_principal.key);
            assert_eq!(*authority, w.tokenizer.key);
            assert_eq!(*amount, 7_000_000);
        }
        other => panic!("expected MintTo, got {:?}", other),
    }
}

#[test]
fn tokenize_principal_fails_after_expiry() {
    let w = world(AFTER, 0, 0, 0);
    let r = TokenizerProcessor::process_tokenize_principal(
        &w.config,
        &w.tokenizer,
        &w.pmint_acct,
        &w.user,
        &w.user_principal,
        &w.token_program,
        Some(&w.system_program),
        Some(&w.atoken_program),
        7,
        AFTER,
    );
    assert_eq!(r, Err(TokenizerError::ExpiryDateElapsed));
    let at_expiry = TokenizerProcessor::process_tokenize_principal(
        &w.config,
        &w.tokenizer,
        &w.pmint_acct,
        &w.user,
        &w.user_principal,
        &w.token_program,
        Some(&w.system_program),
        Some(&w.atoken_program),
        7,
        EXPIRY,
    );
    assert_eq!(at_expiry, Err(TokenizerError::ExpiryDateElapsed));
}

#[test]
fn tokenize_yield_is_gated_like_principal() {
    let w = world(BEFORE, 0, 0, 0);
    assert!(TokenizerProcessor::process_tokenize_yield(
        &w.config,
        &w.tokenizer,
        &w.ymint_acct,
        &w.user,
        &w.user_yield,
        &w.token_program,
        Some(&w.system_program),
        Some(&w.atoken_program),
        7,
        BEFORE,
    )
    .is_ok());
    let r = TokenizerProcessor::process_tokenize_yield(
        &w.config,
        &w.tokenizer,
        &w.ymint_acct,
        &w.user,
        &w.user_yield,
        &w.token_program,
        Some(&w.system_program),
        Some(&w.atoken_program),
        7,
        AFTER,
    );
    assert_eq!(r, Err(TokenizerError::ExpiryDateElapsed));
}

#[test]
fn tokenize_lazily_creates_the_users_sub_account() {
    let mut w = world(BEFORE, 0, 0, 0);
    w.user_principal.owner = system_program_id();
    let acts = TokenizerProcessor::process_tokenize_principal(
        &w.config,
        &w.tokenizer,
        &w.pmint_acct,
        &w.user,
        &w.user_principal,
        &w.token_program,
        Some(&w.system_program),
        Some(&w.atoken_program),
        7,
        BEFORE,
    )
    .unwrap();
    assert_eq!(acts.len(), 2);
    match &acts[0] {
        Action::CreateAssociatedAccount { payer, wallet, mint, address } => {
            assert_eq!(*payer, w.user.key);
            assert_eq!(*wallet, w.user.key);
            assert_eq!(*mint, w.record.principal_token_mint);
            assert_eq!(*address, w.user_principal.key);
        }
        other => panic!("expected CreateAssociatedAccount, got {:?}", other),
    }
    let r = TokenizerProcessor::process_tokenize_principal(
        &w.config,
        &w.tokenizer,
        &w.pmint_acct,
        &w.user,
        &w.user_principal,
        &w.token_program,
        None,
        None,
        7,
        BEFORE,
    );
    assert_eq!(r, Err(TokenizerError::NotEnoughAccountKeys));
}

#[test]
fn round_trip_deposit_then_tokenize_both() {
    let w = world(BEFORE, 0, 0, 0);
    let base = ui_amount_to_base(100);
    let acts = TokenizerProcessor::process_deposit_and_tokenize(
        &w.config,
        &w.tokenizer,
        &w.vault,
        &w.pmint_acct,
        &w.ymint_acct,
        &w.user,
        &w.user_underlying,
        &w.user_principal,
        &w.user_yield,
        &w.token_program,
        &w.system_program,
        &w.atoken_program,
        100,
        BEFORE,
    )
    .unwrap();
    let mut ledger = TokenLedger::new();
    ledger.set_balance(w.vault.key, 0);
    ledger.set_balance(w.user_underlying.key, base);
    ledger.set_balance(w.user_principal.key, 0);
    ledger.set_balance(w.user_yield.key, 0);
    ledger.set_supply(w.pmint_acct.key, 0);
    ledger.set_supply(w.ymint_acct.key, 0);
    assert!(ledger.apply_all(&acts));
    assert_eq!(ledger.balance_of(&w.vault.key), Some(base));
    assert_eq!(ledger.balance_of(&w.user_underlying.key), Some(0));
    assert_eq!(ledger.balance_of(&w.user_principal.key), Some(base));
    assert_eq!(ledger.balance_of(&w.user_yield.key), Some(base));
    assert_eq!(ledger.supply_of(&w.pmint_acct.key), Some(base));
    assert_eq!(ledger.supply_of(&w.ymint_acct.key), Some(base));
}

#[test]
fn redeem_mature_principal_is_gated_by_maturity() {
    let w = world(BEFORE, ui_amount_to_base(100), 0, ui_amount_to_base(100));
    let r = TokenizerProcessor::process_redeem_mature_principal(
        &w.config,
        &w.tokenizer,
        &w.vault,
        &w.umint_acct,
        &w.pmint_acct,
        &w.user,
        &w.user_underlying,
        &w.user_principal,
        &w.token_program,
        Some(&w.system_program),
        100,
        BEFORE,
    );
    assert_eq!(r, Err(TokenizerError::ExpiryDateNotElapsed));
    let at_expiry = TokenizerProcessor::process_redeem_mature_principal(
        &w.config,
        &w.tokenizer,
        &w.vault,
        &w.umint_acct,
        &w.pmint_acct,
        &w.user,
        &w.user_underlying,
        &w.user_principal,
        &w.token_program,
        Some(&w.system_program),
        100,
        EXPIRY,
    );
    assert!(at_expiry.is_ok());
}

#[test]
fn redeem_mature_principal_burns_and_pays_after_expiry() {
    let base = ui_amount_to_base(100);
    let w = world(AFTER, base, 0, base);
    let acts = TokenizerProcessor::process_redeem_mature_principal(
        &w.config,
        &w.tokenizer,
        &w.vault,
        &w.umint_acct,
        &w.pmint_acct,
        &w.user,
        &w.user_underlying,
        &w.user_principal,
        &w.token_program,
        Some(&w.system_program),
        100,
        AFTER,
    )
    .unwrap();
    assert_eq!(acts.len(), 2);
    let mut ledger = TokenLedger::new();
    ledger.set_balance(w.vault.key, base);
    ledger.set_balance(w.user_underlying.key, 0);
    ledger.set_balance(w.user_principal.key, base);
    ledger.set_supply(w.pmint_acct.key, base);
    assert!(ledger.apply_all(&acts));
    assert_eq!(ledger.balance_of(&w.vault.key), Some(0));
    assert_eq!(ledger.balance_of(&w.user_underlying.key), Some(base));
    assert_eq!(ledger.balance_of(&w.user_principal.key), Some(0));
    assert_eq!(ledger.supply_of(&w.pmint_acct.key), Some(0));
}

#[test]
fn redeem_rejects_insufficient_principal() {
    let base = ui_amount_to_base(100);
    let w = world(AFTER, base - 1, 0, base);
    let r = TokenizerProcessor::process_redeem_mature_principal(
        &w.config,
        &w.tokenizer,
        &w.vault,
        &w.umint_acct,
        &w.pmint_acct,
        &w.user,
        &w.user_underlying,
        &w.user_principal,
        &w.token_program,
        Some(&w.system_program),
        100,
        AFTER,
    );
    assert_eq!(r, Err(TokenizerError::InsufficientFunds));
}

#[test]
fn malformed_user_token_account_data_is_rejected() {
    let base = ui_amount_to_base(100);
    let mut w = world(AFTER, base, 0, base);
    w.user_principal.data[108] = 3;
    let r = TokenizerProcessor::process_redeem_mature_principal(
        &w.config,
        &w.tokenizer,
        &w.vault,
        &w.umint_acct,
        &w.pmint_acct,
        &w.user,
        &w.user_underlying,
        &w.user_principal,
        &w.token_program,
        Some(&w.system_program),
        100,
        AFTER,
    );
    assert_eq!(r, Err(TokenizerError::InvalidAccountData));
    let mut w2 = world(AFTER, base, 0, base);
    w2.user_principal.data.truncate(100);
    let short = TokenizerProcessor::process_redeem_mature_principal(
        &w2.config,
        &w2.tokenizer,
        &w2.vault,
        &w2.umint_acct,
        &w2.pmint_acct,
        &w2.user,
        &w2.user_underlying,
        &w2.user_principal,
        &w2.token_program,
        Some(&w2.system_program),
        100,
        AFTER,
    );
    assert_eq!(short, Err(TokenizerError::InvalidAccountData));
}

#[test]
fn claim_yield_is_identical_before_and_after_expiry() {
    let base = ui_amount_to_base(40);
    let w = world(BEFORE, 0, base, base);
    let before = TokenizerProcessor::process_claim_yield(
        &w.config,
        &w.tokenizer,
        &w.vault,
        &w.umint_acct,
        &w.ymint_acct,
        &w.user,
        &w.user_underlying,
        &w.user_yield,
        &w.token_program,
        Some(&w.system_program),
        40,
    );
    let after = TokenizerProcessor::process_claim_yield(
        &w.config,
        &w.tokenizer,
        &w.vault,
        &w.umint_acct,
        &w.ymint_acct,
        &w.user,
        &w.user_underlying,
        &w.user_yield,
        &w.token_program,
        Some(&w.system_program),
        40,
    );
    assert_eq!(before, after);
    let acts = before.unwrap();
    let mut ledger = TokenLedger::new();
    ledger.set_balance(w.vault.key, base);
    ledger.set_balance(w.user_underlying.key, 0);
    ledger.set_balance(w.user_yield.key, base);
    ledger.set_supply(w.ymint_acct.key, base);
    assert!(ledger.apply_all(&acts));
    assert_eq!(ledger.balance_of(&w.vault.key), Some(0));
    assert_eq!(ledger.balance_of(&w.user_underlying.key), Some(base));
    assert_eq!(ledger.balance_of(&w.user_yield.key), Some(0));
    assert_eq!(ledger.supply_of(&w.ymint_acct.key), Some(0));
}

#[test]
fn terminate_fails_while_vault_holds_funds() {
    let w = world(AFTER, 0, 0, 1);
    let r = TokenizerProcessor::process_terminate_lysergic_tokenizer(
        &w.config,
        &w.tokenizer,
        &w.authority,
        &w.vault,
        &w.token_program,
        &w.system_program,
        AFTER,
    );
    assert_eq!(r, Err(TokenizerError::VaultNotEmpty));
    let composite = TokenizerProcessor::process_terminate(
        &w.config,
        &w.tokenizer,
        &w.authority,
        &w.vault,
        &w.pmint_acct,
        &w.ymint_acct,
        &w.token_program,
        &w.system_program,
        AFTER,
    );
    assert_eq!(composite, Err(TokenizerError::VaultNotEmpty));
}

#[test]
fn terminate_fails_before_expiry_whatever_the_vault_holds() {
    for vault_held in [0u64, 5u64] {
        let w = world(BEFORE, 0, 0, vault_held);
        let r = TokenizerProcessor::process_terminate_lysergic_tokenizer(
            &w.config,
            &w.tokenizer,
            &w.authority,
            &w.vault,
            &w.token_program,
            &w.system_program,
            BEFORE,
        );
        assert_eq!(r, Err(TokenizerError::ExpiryDateNotElapsed));
        let mints = TokenizerProcessor::process_terminate_mints(
            &w.config,
            &w.tokenizer,
            &w.authority,
            &w.pmint_acct,
            &w.ymint_acct,
            &w.token_program,
            &w.system_program,
            BEFORE,
        );
        assert_eq!(mints, Err(TokenizerError::ExpiryDateNotElapsed));
    }
}

#[test]
fn terminate_requires_the_stored_authority() {
    let mut w = world(AFTER, 0, 0, 0);
    w.authority.key = addr(77);
    let r = TokenizerProcessor::process_terminate_lysergic_tokenizer(
        &w.config,
        &w.tokenizer,
        &w.authority,
        &w.vault,
        &w.token_program,
        &w.system_program,
        AFTER,
    );
    assert_eq!(r, Err(TokenizerError::Unauthorised));
}

#[test]
fn terminate_succeeds_on_empty_vault_after_expiry() {
    let w = world(AFTER, 0, 0, 0);
    let acts = TokenizerProcessor::process_terminate(
        &w.config,
        &w.tokenizer,
        &w.authority,
        &w.vault,
        &w.pmint_acct,
        &w.ymint_acct,
        &w.token_program,
        &w.system_program,
        AFTER,
    )
    .unwrap();
    assert_eq!(acts.len(), 6);
    let mut ledger = TokenLedger::new();
    ledger.set_supply(w.pmint_acct.key, 0);
    ledger.set_supply(w.ymint_acct.key, 0);
    assert!(ledger.apply_all(&acts));
}

#[test]
fn process_checks_the_entry_identity() {
    let w = world(BEFORE, 0, 0, 0);
    let accounts = vec![
        w.tokenizer.clone(),
        w.vault.clone(),
        w.user.clone(),
        w.user_underlying.clone(),
        w.token_program.clone(),
    ];
    let wrong = addr(88);
    let r = TokenizerProcessor::process(
        &w.config,
        &w.env,
        &wrong,
        TokenizerInstruction::DepositUnderlying { amount: 1 },
        &accounts,
    );
    assert_eq!(r, Err(TokenizerError::IncorrectProgramId));
    let ok = TokenizerProcessor::process(
        &w.config,
        &w.env,
        &w.config.program_id,
        TokenizerInstruction::DepositUnderlying { amount: 1 },
        &accounts,
    );
    assert!(ok.is_ok());
}

#[test]
fn process_rejects_short_account_lists() {
    let w = world(BEFORE, 0, 0, 0);
    let accounts = vec![w.tokenizer.clone(), w.vault.clone()];
    let r = TokenizerProcessor::process(
        &w.config,
        &w.env,
        &w.config.program_id,
        TokenizerInstruction::DepositUnderlying { amount: 1 },
        &accounts,
    );
    assert_eq!(r, Err(TokenizerError::NotEnoughAccountKeys));
}

#[test]
fn redemption_mode_controls_the_maturity_gate() {
    let base = ui_amount_to_base(10);
    let w = world(BEFORE, base, 0, base);
    let gated = TokenizerProcessor::process_redeem_principal(
        &w.config,
        &w.tokenizer,
        &w.vault,
        &w.umint_acct,
        &w.pmint_acct,
        &w.user,
        &w.user_underlying,
        &w.user_principal,
        &w.token_program,
        None,
        RedemptionMode::Mature,
        10,
        BEFORE,
    );
    assert_eq!(gated, Err(TokenizerError::ExpiryDateNotElapsed));
    let bypassed = TokenizerProcessor::process_redeem_principal(
        &w.config,
        &w.tokenizer,
        &w.vault,
        &w.umint_acct,
        &w.pmint_acct,
        &w.user,
        &w.user_underlying,
        &w.user_principal,
        &w.token_program,
        None,
        RedemptionMode::PrincipalYield,
        10,
        BEFORE,
    );
    assert!(bypassed.is_ok());
}

#[test]
fn end_to_end_lifecycle_overdraws_at_the_service_layer() {
    let base = ui_amount_to_base(100);
    let mut w = world(BEFORE, 0, 0, 0);
    w.tokenizer.owner = system_program_id();
    let (um, pm, ym) = initialize_args(&w);
    let init = TokenizerProcessor::process_initialize_tokenizer_and_mints(
        &w.config,
        &w.env,
        &w.tokenizer,
        &w.authority,
        &w.vault,
        &w.umint_acct,
        &w.pmint_acct,
        &w.ymint_acct,
        &w.token_program,
        &w.system_program,
        &w.atoken_program,
        um,
        pm,
        ym,
        Expiry::At { timestamp: EXPIRY },
        0,
    )
    .unwrap();
    let mut ledger = TokenLedger::new();
    assert!(ledger.apply_all(&init));
    assert_eq!(ledger.balance_of(&w.vault.key), Some(0));
    assert_eq!(ledger.supply_of(&w.pmint_acct.key), Some(0));
    assert_eq!(ledger.supply_of(&w.ymint_acct.key), Some(0));

    w.tokenizer.owner = w.config.program_id;
    ledger.set_balance(w.user_underlying.key, base);
    ledger.set_balance(w.user_principal.key, 0);
    ledger.set_balance(w.user_yield.key, 0);
    let funding = TokenizerProcessor::process_deposit_and_tokenize(
        &w.config,
        &w.tokenizer,
        &w.vault,
        &w.pmint_acct,
        &w.ymint_acct,
        &w.user,
        &w.user_underlying,
        &w.user_principal,
        &w.user_yield,
        &w.token_program,
        &w.system_program,
        &w.atoken_program,
        100,
        BEFORE,
    )
    .unwrap();
    assert!(ledger.apply_all(&funding));
    assert_eq!(ledger.balance_of(&w.vault.key), Some(base));
    assert_eq!(ledger.balance_of(&w.user_principal.key), Some(base));
    assert_eq!(ledger.balance_of(&w.user_yield.key), Some(base));

    w.user_principal.data = token_account_data(base);
    w.user_yield.data = token_account_data(base);
    w.vault.data = token_account_data(base);
    let redemption = TokenizerProcessor::process_redeem_mature_principal(
        &w.config,
        &w.tokenizer,
        &w.vault,
        &w.umint_acct,
        &w.pmint_acct,
        &w.user,
        &w.user_underlying,
        &w.user_principal,
        &w.token_program,
        Some(&w.system_program),
        100,
        AFTER,
    )
    .unwrap();
    assert!(ledger.apply_all(&redemption));
    assert_eq!(ledger.balance_of(&w.vault.key), Some(0));
    assert_eq!(ledger.balance_of(&w.user_underlying.key), Some(base));

    let claim = TokenizerProcessor::process_claim_yield(
        &w.config,
        &w.tokenizer,
        &w.vault,
        &w.umint_acct,
        &w.ymint_acct,
        &w.user,
        &w.user_underlying,
        &w.user_yield,
        &w.token_program,
        Some(&w.system_program),
        100,
    )
    .unwrap();
    assert!(!ledger.apply_all(&claim));
}
