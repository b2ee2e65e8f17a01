//! The instruction processor: validation and orchestration.
//!
//! Each handler validates the supplied accounts against their derived or
//! stored canonical values, enforces the lifecycle's time and balance
//! gates, and returns the exact sequence of ledger actions realizing the
//! instruction.  The first failed check aborts the instruction with a
//! distinct error and no actions.

use vstd::prelude::*;
use crate::accounts::AccountView;
use crate::action::{Action, ActionView, SignerSeeds, SignerSeedsView};
use crate::addr::{Addr, system_program_id, system_program_id_bytes};
use crate::amount::{scale_to_base, ui_amount_to_base};
use crate::error::TokenizerError;
use crate::instruction::{Expiry, TokenizerInstruction};
use crate::pda::{
    associated_account_address_of, associated_token_service_id, associated_token_service_id_bytes,
    derive_associated_account_address, derive_principal_mint_address, derive_tokenizer_address,
    derive_yield_mint_address, principal_mint_address_of, token_service_id,
    token_service_id_bytes, tokenizer_address_of, yield_mint_address_of,
};
use crate::state::{LysergicTokenizerState, RecordView, spec_record_of, LYSERGIC_TOKENIZER_STATE_SIZE};
use crate::token_account::{spec_token_amount, token_account_bytes_wf, unpack_token_amount, TOKEN_ACCOUNT_SIZE};

verus! {

/// Size in bytes of a stored mint account.
pub const MINT_SIZE: usize = 82;

/// Which rule set a principal redemption runs under: the maturity-gated
/// one, or the leg of a combined principal-and-yield redemption, which
/// bypasses the maturity gate.
pub enum RedemptionMode {
    Mature,
    PrincipalYield,
}

/// The protocol's own identity, injected at startup rather than compiled
/// in, so independent instances can coexist.
#[derive(Clone, Copy, PartialEq, Eq, Debug)]
pub struct ProtocolConfig {
    /// The address the protocol's processor runs as; owner of every
    /// tokenizer record.
    pub program_id: Addr,
}

/// One instruction's readings of the platform's oracles, taken once at
/// the start of the handler.
#[derive(Clone, Copy, PartialEq, Eq, Debug)]
pub struct Env {
    /// The clock oracle's current time, in seconds.
    pub now: i64,
    /// Minimum balance the base account service requires for an account
    /// of the record's size.
    pub rent_minimum_record: u64,
    /// Minimum balance the base account service requires for an account
    /// of a mint's size.
    pub rent_minimum_mint: u64,
}

/// The view of a handler result: the action views on success, the error
/// unchanged on failure.
pub open spec fn result_view(r: Result<Vec<Action>, TokenizerError>) -> Result<
    Seq<ActionView>,
    TokenizerError,
> {
    match r {
        Ok(acts) => Ok(acts.deep_view()),
        Err(e) => Err(e),
    }
}

/// The instruction processor.
pub struct TokenizerProcessor;

/// What depositing resolves to: one transfer of the scaled amount from
/// the caller's canonical underlying sub-account into the vault,
/// authorized by the caller, after every validation passes.
pub open spec fn deposit_underlying_spec(
    config: ProtocolConfig,
    lysergic_tokenizer: AccountView,
    underlying_vault: AccountView,
    user: AccountView,
    user_underlying: AccountView,
    token_program: AccountView,
    amount: u64,
) -> Result<Seq<ActionView>, TokenizerError> {
    let base = scale_to_base(amount);
    if lysergic_tokenizer.owner@ != config.program_id@ {
        Err(TokenizerError::TokenizerNotInitialized)
    } else if lysergic_tokenizer.data@.len() != 177 {
        Err(TokenizerError::InvalidAccountData)
    } else {
        let state = spec_record_of(lysergic_tokenizer.data@);
        if underlying_vault.owner@ != token_service_id_bytes() {
            Err(TokenizerError::IncorrectVaultAddress)
        } else if underlying_vault.key@ != state.underlying_vault {
            Err(TokenizerError::IncorrectVaultAddress)
        } else if !user.is_signer {
            Err(TokenizerError::MissingRequiredSignature)
        } else {
            match associated_account_address_of(user.key@, state.underlying_mint) {
                None => Err(TokenizerError::AddressDerivationFailed),
                Some((expected_user_underlying, b)) => {
                    if user_underlying.key@ != expected_user_underlying {
                        Err(TokenizerError::InvalidUserAccount)
                    } else if token_program.key@ != token_service_id_bytes() {
                        Err(TokenizerError::IncorrectProgramId)
                    } else {
                        Ok(
                            seq![
                                ActionView::Transfer {
                                    source: user_underlying.key@,
                                    destination: underlying_vault.key@,
                                    authority: user.key@,
                                    amount: base,
                                    seeds: SignerSeedsView::Caller,
                                },
                            ],
                        )
                    }
                },
            }
        }
    }
}


/// Accounts handed optionally, as values for specification.
pub open spec fn opt_account(o: Option<&AccountView>) -> Option<AccountView> {
    match o {
        Some(a) => Some(*a),
        None => None,
    }
}

/// What tokenizing principal resolves to: lazily creating the caller's
/// canonical principal sub-account when it does not exist yet, then
/// minting the scaled amount to it under the record's derived signing
/// capability; legal only while the expiry date has not elapsed.
pub open spec fn tokenize_principal_spec(
    config: ProtocolConfig,
    lysergic_tokenizer: AccountView,
    principal_token_mint: AccountView,
    user: AccountView,
    user_principal: AccountView,
    token_program: AccountView,
    system_program: Option<AccountView>,
    associated_token_program: Option<AccountView>,
    amount: u64,
    now: i64,
) -> Result<Seq<ActionView>, TokenizerError> {
    let base = scale_to_base(amount);
    if lysergic_tokenizer.owner@ != config.program_id@ {
        Err(TokenizerError::TokenizerNotInitialized)
    } else if lysergic_tokenizer.data@.len() != 177 {
        Err(TokenizerError::InvalidAccountData)
    } else {
        let state = spec_record_of(lysergic_tokenizer.data@);
        if state.expiry_date <= now {
            Err(TokenizerError::ExpiryDateElapsed)
        } else if principal_token_mint.key@ != state.principal_token_mint {
            Err(TokenizerError::IncorrectPrincipalMintAddress)
        } else {
            match associated_account_address_of(user.key@, state.principal_token_mint) {
                None => Err(TokenizerError::AddressDerivationFailed),
                Some((expected_user_principal, b)) => {
                    if user_principal.key@ != expected_user_principal {
                        Err(TokenizerError::InvalidUserAccount)
                    } else if token_program.key@ != token_service_id_bytes() {
                        Err(TokenizerError::IncorrectProgramId)
                    } else {
                        let mint_to = ActionView::MintTo {
                            mint: principal_token_mint.key@,
                            destination: user_principal.key@,
                            authority: lysergic_tokenizer.key@,
                            amount: base,
                            seeds: SignerSeedsView::Tokenizer {
                                underlying_mint: state.underlying_mint,
                                expiry_date: state.expiry_date,
                                bump: state.bump,
                            },
                        };
                        if user_principal.owner@ != token_program.key@ {
                            match (system_program, associated_token_program) {
                                (Some(sys), Some(atoken)) => {
                                    if sys.key@ != system_program_id_bytes() {
                                        Err(TokenizerError::IncorrectProgramId)
                                    } else if atoken.key@ != associated_token_service_id_bytes() {
                                        Err(TokenizerError::IncorrectProgramId)
                                    } else {
                                        Ok(
                                            seq![
                                                ActionView::CreateAssociatedAccount {
                                                    payer: user.key@,
                                                    wallet: user.key@,
                                                    mint: state.principal_token_mint,
                                                    address: user_principal.key@,
                                                },
                                                mint_to,
                                            ],
                                        )
                                    }
                                },
                                _ => Err(TokenizerError::NotEnoughAccountKeys),
                            }
                        } else {
                            Ok(seq![mint_to])
                        }
                    }
                },
            }
        }
    }
}

/// What tokenizing yield resolves to; symmetric to tokenizing principal,
/// over the yield mint.
pub open spec fn tokenize_yield_spec(
    config: ProtocolConfig,
    lysergic_tokenizer: AccountView,
    yield_token_mint: AccountView,
    user: AccountView,
    user_yield: AccountView,
    token_program: AccountView,
    system_program: Option<AccountView>,
    associated_token_program: Option<AccountView>,
    amount: u64,
    now: i64,
) -> Result<Seq<ActionView>, TokenizerError> {
    let base = scale_to_base(amount);
    if lysergic_tokenizer.owner@ != config.program_id@ {
        Err(TokenizerError::TokenizerNotInitialized)
    } else if lysergic_tokenizer.data@.len() != 177 {
        Err(TokenizerError::InvalidAccountData)
    } else {
        let state = spec_record_of(lysergic_tokenizer.data@);
        if state.expiry_date <= now {
            Err(TokenizerError::ExpiryDateElapsed)
        } else if yield_token_mint.key@ != state.yield_token_mint {
            Err(TokenizerError::IncorrectYieldMintAddress)
        } else {
            match associated_account_address_of(user.key@, state.yield_token_mint) {
                None => Err(TokenizerError::AddressDerivationFailed),
                Some((expected_user_yield, b)) => {
                    if user_yield.key@ != expected_user_yield {
                        Err(TokenizerError::InvalidUserAccount)
                    } else if token_program.key@ != token_service_id_bytes() {
                        Err(TokenizerError::IncorrectProgramId)
                    } else {
                        let mint_to = ActionView::MintTo {
                            mint: yield_token_mint.key@,
                            destination: user_yield.key@,
                            authority: lysergic_tokenizer.key@,
                            amount: base,
                            seeds: SignerSeedsView::Tokenizer {
                                underlying_mint: state.underlying_mint,
                                expiry_date: state.expiry_date,
                                bump: state.bump,
                            },
                        };
                        if user_yield.owner@ != token_program.key@ {
                            match (system_program, associated_token_program) {
                                (Some(sys), Some(atoken)) => {
                                    if sys.key@ != system_program_id_bytes() {
                                        Err(TokenizerError::IncorrectProgramId)
                                    } else if atoken.key@ != associated_token_service_id_bytes() {
                                        Err(TokenizerError::IncorrectProgramId)
                                    } else {
                                        Ok(
                                            seq![
                                                ActionView::CreateAssociatedAccount {
                                                    payer: user.key@,
                                                    wallet: user.key@,
                                                    mint: state.yield_token_mint,
                                                    address: user_yield.key@,
                                                },
                                                mint_to,
                                            ],
                                        )
                                    }
                                },
                                _ => Err(TokenizerError::NotEnoughAccountKeys),
                            }
                        } else {
                            Ok(seq![mint_to])
                        }
                    }
                },
            }
        }
    }
}


/// What redeeming principal resolves to: burn the scaled amount of
/// principal from the caller and pay the same amount of underlying from
/// the vault to the caller's canonical underlying sub-account, creating
/// that sub-account first when it does not exist yet.  Under the mature
/// rule set this is legal only once the expiry date has elapsed; the
/// combined-redemption leg bypasses that gate.
pub open spec fn redeem_principal_spec(
    config: ProtocolConfig,
    lysergic_tokenizer: AccountView,
    underlying_vault: AccountView,
    underlying_mint: AccountView,
    principal_token_mint: AccountView,
    user: AccountView,
    user_underlying: AccountView,
    user_principal: AccountView,
    token_program: AccountView,
    system_program: Option<AccountView>,
    mature: bool,
    amount: u64,
    now: i64,
) -> Result<Seq<ActionView>, TokenizerError> {
    let base = scale_to_base(amount);
    if lysergic_tokenizer.owner@ != config.program_id@ {
        Err(TokenizerError::TokenizerNotInitialized)
    } else if lysergic_tokenizer.data@.len() != 177 {
        Err(TokenizerError::InvalidAccountData)
    } else {
        let state = spec_record_of(lysergic_tokenizer.data@);
        if mature && state.expiry_date > now {
            Err(TokenizerError::ExpiryDateNotElapsed)
        } else if underlying_vault.owner@ != token_service_id_bytes() {
            Err(TokenizerError::IncorrectVaultAddress)
        } else if underlying_vault.key@ != state.underlying_vault {
            Err(TokenizerError::IncorrectVaultAddress)
        } else if underlying_mint.key@ != state.underlying_mint {
            Err(TokenizerError::IncorrectUnderlyingMintAddress)
        } else if principal_token_mint.key@ != state.principal_token_mint {
            Err(TokenizerError::IncorrectPrincipalMintAddress)
        } else if !user.is_signer {
            Err(TokenizerError::MissingRequiredSignature)
        } else {
            match associated_account_address_of(user.key@, state.underlying_mint) {
                None => Err(TokenizerError::AddressDerivationFailed),
                Some((expected_user_underlying, b1)) => {
                    if user_underlying.key@ != expected_user_underlying {
                        Err(TokenizerError::InvalidUserAccount)
                    } else {
                        match associated_account_address_of(user.key@, state.principal_token_mint) {
                            None => Err(TokenizerError::AddressDerivationFailed),
                            Some((expected_user_principal, b2)) => {
                                if user_principal.key@ != expected_user_principal {
                                    Err(TokenizerError::InvalidUserAccount)
                                } else if token_program.key@ != token_service_id_bytes() {
                                    Err(TokenizerError::IncorrectProgramId)
                                } else if user_principal.data@.len() != 165 {
                                    Err(TokenizerError::InvalidAccountData)
                                } else if !token_account_bytes_wf(user_principal.data@) {
                                    Err(TokenizerError::InvalidAccountData)
                                } else if spec_token_amount(user_principal.data@) < base {
                                    Err(TokenizerError::InsufficientFunds)
                                } else {
                                    let burn = ActionView::Burn {
                                        source: user_principal.key@,
                                        mint: principal_token_mint.key@,
                                        owner: user.key@,
                                        amount: base,
                                    };
                                    let payout = ActionView::Transfer {
                                        source: underlying_vault.key@,
                                        destination: user_underlying.key@,
                                        authority: lysergic_tokenizer.key@,
                                        amount: base,
                                        seeds: SignerSeedsView::Tokenizer {
                                            underlying_mint: state.underlying_mint,
                                            expiry_date: state.expiry_date,
                                            bump: state.bump,
                                        },
                                    };
                                    if user_underlying.owner@ != token_program.key@ {
                                        match system_program {
                                            Some(sys) => {
                                                if sys.key@ != system_program_id_bytes() {
                                                    Err(TokenizerError::IncorrectProgramId)
                                                } else {
                                                    Ok(
                                                        seq![
                                                            ActionView::CreateAssociatedAccount {
                                                                payer: user.key@,
                                                                wallet: user.key@,
                                                                mint: state.underlying_mint,
                                                                address: user_underlying.key@,
                                                            },
                                                            burn,
                                                            payout,
                                                        ],
                                                    )
                                                }
                                            },
                                            None => Err(TokenizerError::NotEnoughAccountKeys),
                                        }
                                    } else {
                                        Ok(seq![burn, payout])
                                    }
                                }
                            },
                        }
                    }
                },
            }
        }
    }
}

/// What claiming yield resolves to: burn the scaled amount of yield from
/// the caller and pay the same amount of underlying from the vault to the
/// caller's canonical underlying sub-account, creating that sub-account
/// first when it does not exist yet.  There is no time gate: yield is
/// claimable before and after maturity alike.
pub open spec fn claim_yield_spec(
    config: ProtocolConfig,
    lysergic_tokenizer: AccountView,
    underlying_vault: AccountView,
    underlying_mint: AccountView,
    yield_token_mint: AccountView,
    user: AccountView,
    user_underlying: AccountView,
    user_yield: AccountView,
    token_program: AccountView,
    system_program: Option<AccountView>,
    amount: u64,
) -> Result<Seq<ActionView>, TokenizerError> {
    let base = scale_to_base(amount);
    if lysergic_tokenizer.owner@ != config.program_id@ {
        Err(TokenizerError::TokenizerNotInitialized)
    } else if lysergic_tokenizer.data@.len() != 177 {
        Err(TokenizerError::InvalidAccountData)
    } else {
        let state = spec_record_of(lysergic_tokenizer.data@);
        if underlying_vault.owner@ != token_service_id_bytes() {
            Err(TokenizerError::IncorrectVaultAddress)
        } else if underlying_vault.key@ != state.underlying_vault {
            Err(TokenizerError::IncorrectVaultAddress)
        } else if yield_token_mint.key@ != state.yield_token_mint {
            Err(TokenizerError::IncorrectYieldMintAddress)
        } else if !user.is_signer {
            Err(TokenizerError::MissingRequiredSignature)
        } else {
            match associated_account_address_of(user.key@, state.underlying_mint) {
                None => Err(TokenizerError::AddressDerivationFailed),
                Some((expected_user_underlying, b1)) => {
                    if user_underlying.key@ != expected_user_underlying {
                        Err(TokenizerError::InvalidUserAccount)
                    } else {
                        match associated_account_address_of(user.key@, state.yield_token_mint) {
                            None => Err(TokenizerError::AddressDerivationFailed),
                            Some((expected_user_yield, b2)) => {
                                if user_yield.key@ != expected_user_yield {
                                    Err(TokenizerError::InvalidUserAccount)
                                } else if token_program.key@ != token_service_id_bytes() {
                                    Err(TokenizerError::IncorrectProgramId)
                                } else if user_yield.data@.len() != 165 {
                                    Err(TokenizerError::InvalidAccountData)
                                } else if !token_account_bytes_wf(user_yield.data@) {
                                    Err(TokenizerError::InvalidAccountData)
                                } else if spec_token_amount(user_yield.data@) < base {
                                    Err(TokenizerError::InsufficientFunds)
                                } else {
                                    let burn = ActionView::Burn {
                                        source: user_yield.key@,
                                        mint: yield_token_mint.key@,
                                        owner: user.key@,
                                        amount: base,
                                    };
                                    let payout = ActionView::Transfer {
                                        source: underlying_vault.key@,
                                        destination: user_underlying.key@,
                                        authority: lysergic_tokenizer.key@,
                                        amount: base,
                                        seeds: SignerSeedsView::Tokenizer {
                                            underlying_mint: state.underlying_mint,
                                            expiry_date: state.expiry_date,
                                            bump: state.bump,
                                        },
                                    };
                                    if user_underlying.owner@ != token_program.key@ {
                                        match system_program {
                                            Some(sys) => {
                                                if sys.key@ != system_program_id_bytes() {
                                                    Err(TokenizerError::IncorrectProgramId)
                                                } else {
                                                    Ok(
                                                        seq![
                                                            ActionView::CreateAssociatedAccount {
                                                                payer: user.key@,
                                                                wallet: user.key@,
                                                                mint: state.underlying_mint,
                                                                address: user_underlying.key@,
                                                            },
                                                            burn,
                                                            payout,
                                                        ],
                                                    )
                                                }
                                            },
                                            None => Err(TokenizerError::NotEnoughAccountKeys),
                                        }
                                    } else {
                                        Ok(seq![burn, payout])
                                    }
                                }
                            },
                        }
                    }
                },
            }
        }
    }
}


/// What terminating the record resolves to: sweep the record's entire
/// native balance back to the authority under seed replay, reassign the
/// record to the base account service, and shrink it to zero size; legal
/// only for the stored authority, once the expiry date has elapsed and
/// the vault is empty.
pub open spec fn terminate_lysergic_tokenizer_spec(
    config: ProtocolConfig,
    lysergic_tokenizer: AccountView,
    authority: AccountView,
    underlying_vault: AccountView,
    token_program: AccountView,
    system_program: AccountView,
    now: i64,
) -> Result<Seq<ActionView>, TokenizerError> {
    if lysergic_tokenizer.owner@ != config.program_id@ {
        Err(TokenizerError::TokenizerNotInitialized)
    } else if !authority.is_signer {
        Err(TokenizerError::MissingRequiredSignature)
    } else if lysergic_tokenizer.data@.len() != 177 {
        Err(TokenizerError::InvalidAccountData)
    } else {
        let state = spec_record_of(lysergic_tokenizer.data@);
        if authority.key@ != state.authority {
            Err(TokenizerError::Unauthorised)
        } else if state.expiry_date > now {
            Err(TokenizerError::ExpiryDateNotElapsed)
        } else if underlying_vault.data@.len() != 165 {
            Err(TokenizerError::InvalidAccountData)
        } else if !token_account_bytes_wf(underlying_vault.data@) {
            Err(TokenizerError::InvalidAccountData)
        } else if spec_token_amount(underlying_vault.data@) != 0 {
            Err(TokenizerError::VaultNotEmpty)
        } else if underlying_vault.key@ != state.underlying_vault {
            Err(TokenizerError::IncorrectVaultAddress)
        } else if token_program.key@ != token_service_id_bytes() {
            Err(TokenizerError::IncorrectProgramId)
        } else if system_program.key@ != system_program_id_bytes() {
            Err(TokenizerError::IncorrectProgramId)
        } else {
            let seeds = SignerSeedsView::Tokenizer {
                underlying_mint: state.underlying_mint,
                expiry_date: state.expiry_date,
                bump: state.bump,
            };
            Ok(
                seq![
                    ActionView::SweepLamports {
                        from: lysergic_tokenizer.key@,
                        to: authority.key@,
                        seeds: seeds,
                    },
                    ActionView::AssignOwner {
                        account: lysergic_tokenizer.key@,
                        owner: system_program_id_bytes(),
                    },
                    ActionView::Resize { account: lysergic_tokenizer.key@, space: 0u64 },
                ],
            )
        }
    }
}

/// What terminating the mints resolves to: close the principal and yield
/// mints, paying their balances to the authority, then sweep the record's
/// native balance to the authority; legal only for the stored authority,
/// once the expiry date has elapsed.
pub open spec fn terminate_mints_spec(
    config: ProtocolConfig,
    lysergic_tokenizer: AccountView,
    authority: AccountView,
    principal_token_mint: AccountView,
    yield_token_mint: AccountView,
    token_program: AccountView,
    system_program: AccountView,
    now: i64,
) -> Result<Seq<ActionView>, TokenizerError> {
    if lysergic_tokenizer.owner@ != config.program_id@ {
        Err(TokenizerError::TokenizerNotInitialized)
    } else if !authority.is_signer {
        Err(TokenizerError::MissingRequiredSignature)
    } else if lysergic_tokenizer.data@.len() != 177 {
        Err(TokenizerError::InvalidAccountData)
    } else {
        let state = spec_record_of(lysergic_tokenizer.data@);
        if authority.key@ != state.authority {
            Err(TokenizerError::Unauthorised)
        } else if state.expiry_date > now {
            Err(TokenizerError::ExpiryDateNotElapsed)
        } else if principal_token_mint.key@ != state.principal_token_mint {
            Err(TokenizerError::IncorrectPrincipalMintAddress)
        } else if yield_token_mint.key@ != state.yield_token_mint {
            Err(TokenizerError::IncorrectYieldMintAddress)
        } else if token_program.key@ != token_service_id_bytes() {
            Err(TokenizerError::IncorrectProgramId)
        } else if system_program.key@ != system_program_id_bytes() {
            Err(TokenizerError::IncorrectProgramId)
        } else {
            let seeds = SignerSeedsView::Tokenizer {
                underlying_mint: state.underlying_mint,
                expiry_date: state.expiry_date,
                bump: state.bump,
            };
            Ok(
                seq![
                    ActionView::CloseAccount {
                        account: principal_token_mint.key@,
                        destination: authority.key@,
                        authority: lysergic_tokenizer.key@,
                        seeds: seeds,
                    },
                    ActionView::CloseAccount {
                        account: yield_token_mint.key@,
                        destination: authority.key@,
                        authority: lysergic_tokenizer.key@,
                        seeds: seeds,
                    },
                    ActionView::SweepLamports {
                        from: lysergic_tokenizer.key@,
                        to: authority.key@,
                        seeds: seeds,
                    },
                ],
            )
        }
    }
}

/// What full termination resolves to: terminating the mints, then the
/// record, as one unit.
pub open spec fn terminate_spec(
    config: ProtocolConfig,
    lysergic_tokenizer: AccountView,
    authority: AccountView,
    underlying_vault: AccountView,
    principal_token_mint: AccountView,
    yield_token_mint: AccountView,
    token_program: AccountView,
    system_program: AccountView,
    now: i64,
) -> Result<Seq<ActionView>, TokenizerError> {
    match terminate_mints_spec(
        config,
        lysergic_tokenizer,
        authority,
        principal_token_mint,
        yield_token_mint,
        token_program,
        system_program,
        now,
    ) {
        Err(e) => Err(e),
        Ok(a1) => match terminate_lysergic_tokenizer_spec(
            config,
            lysergic_tokenizer,
            authority,
            underlying_vault,
            token_program,
            system_program,
            now,
        ) {
            Err(e) => Err(e),
            Ok(a2) => Ok(a1 + a2),
        },
    }
}


/// The balance still needed to fund a fresh account: the rent minimum
/// (at least one unit), less what the account already holds.
pub open spec fn spec_required_lamports(rent_minimum: u64, held: u64) -> u64 {
    let floor = if rent_minimum < 1 { 1u64 } else { rent_minimum };
    if floor > held {
        (floor - held) as u64
    } else {
        0u64
    }
}

/// What initializing a tokenizer resolves to: create the record account
/// at its derived address, funded to the rent minimum for its size;
/// create the vault as the record's canonical underlying sub-account; and
/// persist the record, with every supplied address checked against its
/// derived value first.  A record the protocol already owns is rejected,
/// untouched.
pub open spec fn initialize_lysergic_tokenizer_spec(
    config: ProtocolConfig,
    env: Env,
    lysergic_tokenizer: AccountView,
    authority: AccountView,
    underlying_vault: AccountView,
    underlying_mint_account: AccountView,
    token_program: AccountView,
    system_program: AccountView,
    associated_token_program: AccountView,
    underlying_mint: Addr,
    principal_token_mint: Addr,
    yield_token_mint: Addr,
    expiry: Expiry,
    fixed_apy: u64,
) -> Result<Seq<ActionView>, TokenizerError> {
    match expiry.spec_to_expiry_date(env.now) {
        None => Err(TokenizerError::InvalidExpiryDate),
        Some(expiry_date) => match tokenizer_address_of(
            config.program_id@,
            underlying_mint_account.key@,
            expiry_date,
        ) {
            None => Err(TokenizerError::AddressDerivationFailed),
            Some((tokenizer_key, bump)) => match principal_mint_address_of(
                config.program_id@,
                tokenizer_key,
            ) {
                None => Err(TokenizerError::AddressDerivationFailed),
                Some((principal_mint, pb)) => match yield_mint_address_of(
                    config.program_id@,
                    tokenizer_key,
                ) {
                    None => Err(TokenizerError::AddressDerivationFailed),
                    Some((yield_mint, yb)) => {
                        if lysergic_tokenizer.key@ != tokenizer_key {
                            Err(TokenizerError::IncorrectTokenizerAddress)
                        } else if !authority.is_signer {
                            Err(TokenizerError::MissingRequiredSignature)
                        } else {
                            match associated_account_address_of(
                                lysergic_tokenizer.key@,
                                underlying_mint@,
                            ) {
                                None => Err(TokenizerError::AddressDerivationFailed),
                                Some((expected_vault, vb)) => {
                                    if underlying_vault.key@ != expected_vault {
                                        Err(TokenizerError::IncorrectVaultAddress)
                                    } else if underlying_mint@ != underlying_mint_account.key@ {
                                        Err(TokenizerError::IncorrectUnderlyingMintAddress)
                                    } else if principal_token_mint@ != principal_mint {
                                        Err(TokenizerError::IncorrectPrincipalMintAddress)
                                    } else if yield_token_mint@ != yield_mint {
                                        Err(TokenizerError::IncorrectYieldMintAddress)
                                    } else if token_program.key@ != token_service_id_bytes() {
                                        Err(TokenizerError::IncorrectProgramId)
                                    } else if associated_token_program.key@
                                        != associated_token_service_id_bytes() {
                                        Err(TokenizerError::IncorrectProgramId)
                                    } else if system_program.key@ != system_program_id_bytes() {
                                        Err(TokenizerError::IncorrectProgramId)
                                    } else if lysergic_tokenizer.owner@ == config.program_id@ {
                                        Err(TokenizerError::TokenizerAlreadyInitialized)
                                    } else {
                                        let record = RecordView {
                                            bump: bump,
                                            authority: authority.key@,
                                            principal_token_mint: principal_token_mint@,
                                            yield_token_mint: yield_token_mint@,
                                            underlying_mint: underlying_mint@,
                                            underlying_vault: underlying_vault.key@,
                                            expiry_date: expiry_date,
                                            fixed_apy: fixed_apy,
                                        };
                                        Ok(
                                            seq![
                                                ActionView::CreateAccount {
                                                    payer: authority.key@,
                                                    address: tokenizer_key,
                                                    lamports: spec_required_lamports(
                                                        env.rent_minimum_record,
                                                        lysergic_tokenizer.lamports,
                                                    ),
                                                    space: LYSERGIC_TOKENIZER_STATE_SIZE as u64,
                                                    owner: config.program_id@,
                                                    seeds: SignerSeedsView::Tokenizer {
                                                        underlying_mint: underlying_mint_account.key@,
                                                        expiry_date: expiry_date,
                                                        bump: bump,
                                                    },
                                                },
                                                ActionView::CreateAssociatedAccount {
                                                    payer: authority.key@,
                                                    wallet: lysergic_tokenizer.key@,
                                                    mint: underlying_mint@,
                                                    address: underlying_vault.key@,
                                                },
                                                ActionView::WriteRecord {
                                                    account: lysergic_tokenizer.key@,
                                                    record: record,
                                                },
                                            ],
                                        )
                                    }
                                },
                            }
                        }
                    },
                },
            },
        },
    }
}

/// What initializing the mints resolves to: create the two mint accounts
/// at their derived addresses, funded to the rent minimum for a mint, and
/// initialize both with the record as mint authority, the fixed decimal
/// scale, and no freeze authority.  When the record already exists the
/// supplied accounts are checked against its stored fields; when it does
/// not, against the freshly derived addresses.
pub open spec fn initialize_mints_spec(
    config: ProtocolConfig,
    env: Env,
    lysergic_tokenizer: AccountView,
    authority: AccountView,
    underlying_mint_account: AccountView,
    principal_token_mint_account: AccountView,
    yield_token_mint_account: AccountView,
    token_program: AccountView,
    system_program: AccountView,
    underlying_mint: Addr,
    expiry: Expiry,
) -> Result<Seq<ActionView>, TokenizerError> {
    match expiry.spec_to_expiry_date(env.now) {
        None => Err(TokenizerError::InvalidExpiryDate),
        Some(expiry_date) => match tokenizer_address_of(
            config.program_id@,
            underlying_mint@,
            expiry_date,
        ) {
            None => Err(TokenizerError::AddressDerivationFailed),
            Some((tokenizer_key, bump)) => match principal_mint_address_of(
                config.program_id@,
                tokenizer_key,
            ) {
                None => Err(TokenizerError::AddressDerivationFailed),
                Some((principal_mint, pbump)) => match yield_mint_address_of(
                    config.program_id@,
                    tokenizer_key,
                ) {
                    None => Err(TokenizerError::AddressDerivationFailed),
                    Some((yield_mint, ybump)) => {
                        if lysergic_tokenizer.key@ != tokenizer_key {
                            Err(TokenizerError::IncorrectTokenizerAddress)
                        } else if !authority.is_signer {
                            Err(TokenizerError::MissingRequiredSignature)
                        } else if token_program.key@ != token_service_id_bytes() {
                            Err(TokenizerError::IncorrectProgramId)
                        } else {
                            let checks: Result<Seq<ActionView>, TokenizerError> = if lysergic_tokenizer.owner@ == config.program_id@ {
                                if lysergic_tokenizer.data@.len() != 177 {
                                    Err(TokenizerError::InvalidAccountData)
                                } else {
                                    let state = spec_record_of(lysergic_tokenizer.data@);
                                    if state.principal_token_mint
                                        != principal_token_mint_account.key@ {
                                        Err(TokenizerError::IncorrectPrincipalMintAddress)
                                    } else if state.yield_token_mint
                                        != yield_token_mint_account.key@ {
                                        Err(TokenizerError::IncorrectYieldMintAddress)
                                    } else if state.underlying_mint
                                        != underlying_mint_account.key@ {
                                        Err(TokenizerError::IncorrectUnderlyingMintAddress)
                                    } else if state.expiry_date != expiry_date {
                                        Err(TokenizerError::InvalidExpiryDate)
                                    } else {
                                        match associated_account_address_of(
                                            lysergic_tokenizer.key@,
                                            state.underlying_mint,
                                        ) {
                                            None => Err(TokenizerError::AddressDerivationFailed),
                                            Some((expected_vault, vb)) => {
                                                if state.underlying_vault != expected_vault {
                                                    Err(TokenizerError::IncorrectVaultAddress)
                                                } else {
                                                    Ok(seq![])
                                                }
                                            },
                                        }
                                    }
                                }
                            } else {
                                if principal_token_mint_account.key@ != principal_mint {
                                    Err(TokenizerError::IncorrectPrincipalMintAddress)
                                } else if yield_token_mint_account.key@ != yield_mint {
                                    Err(TokenizerError::IncorrectYieldMintAddress)
                                } else {
                                    Ok(seq![])
                                }
                            };
                            match checks {
                                Err(e) => Err(e),
                                Ok(empty) => Ok(
                                    seq![
                                        ActionView::CreateAccount {
                                            payer: authority.key@,
                                            address: principal_token_mint_account.key@,
                                            lamports: spec_required_lamports(
                                                env.rent_minimum_mint,
                                                principal_token_mint_account.lamports,
                                            ),
                                            space: MINT_SIZE as u64,
                                            owner: token_service_id_bytes(),
                                            seeds: SignerSeedsView::PrincipalMint {
                                                tokenizer: lysergic_tokenizer.key@,
                                                bump: pbump,
                                            },
                                        },
                                        ActionView::CreateAccount {
                                            payer: authority.key@,
                                            address: yield_token_mint_account.key@,
                                            lamports: spec_required_lamports(
                                                env.rent_minimum_mint,
                                                yield_token_mint_account.lamports,
                                            ),
                                            space: MINT_SIZE as u64,
                                            owner: token_service_id_bytes(),
                                            seeds: SignerSeedsView::YieldMint {
                                                tokenizer: lysergic_tokenizer.key@,
                                                bump: ybump,
                                            },
                                        },
                                        ActionView::InitializeMint {
                                            mint: principal_token_mint_account.key@,
                                            mint_authority: lysergic_tokenizer.key@,
                                            decimals: 6u8,
                                        },
                                        ActionView::InitializeMint {
                                            mint: yield_token_mint_account.key@,
                                            mint_authority: lysergic_tokenizer.key@,
                                            decimals: 6u8,
                                        },
                                    ],
                                ),
                            }
                        }
                    },
                },
            },
        },
    }
}


/// What the one-unit initialization resolves to: initializing the
/// tokenizer, then the mints.
pub open spec fn initialize_tokenizer_and_mints_spec(
    config: ProtocolConfig,
    env: Env,
    lysergic_tokenizer: AccountView,
    authority: AccountView,
    underlying_vault: AccountView,
    underlying_mint_account: AccountView,
    principal_token_mint_account: AccountView,
    yield_token_mint_account: AccountView,
    token_program: AccountView,
    system_program: AccountView,
    associated_token_program: AccountView,
    underlying_mint: Addr,
    principal_token_mint: Addr,
    yield_token_mint: Addr,
    expiry: Expiry,
    fixed_apy: u64,
) -> Result<Seq<ActionView>, TokenizerError> {
    match initialize_lysergic_tokenizer_spec(
        config,
        env,
        lysergic_tokenizer,
        authority,
        underlying_vault,
        underlying_mint_account,
        token_program,
        system_program,
        associated_token_program,
        underlying_mint,
        principal_token_mint,
        yield_token_mint,
        expiry,
        fixed_apy,
    ) {
        Err(e) => Err(e),
        Ok(a1) => match initialize_mints_spec(
            config,
            env,
            lysergic_tokenizer,
            authority,
            underlying_mint_account,
            principal_token_mint_account,
            yield_token_mint_account,
            token_program,
            system_program,
            underlying_mint,
            expiry,
        ) {
            Err(e) => Err(e),
            Ok(a2) => Ok(a1 + a2),
        },
    }
}

/// What the one-unit deposit-and-tokenize resolves to: depositing, then
/// tokenizing principal, then tokenizing yield, the same amount each.
pub open spec fn deposit_and_tokenize_spec(
    config: ProtocolConfig,
    lysergic_tokenizer: AccountView,
    underlying_vault: AccountView,
    principal_token_mint: AccountView,
    yield_token_mint: AccountView,
    user: AccountView,
    user_underlying: AccountView,
    user_principal: AccountView,
    user_yield: AccountView,
    token_program: AccountView,
    system_program: AccountView,
    associated_token_program: AccountView,
    amount: u64,
    now: i64,
) -> Result<Seq<ActionView>, TokenizerError> {
    match deposit_underlying_spec(
        config,
        lysergic_tokenizer,
        underlying_vault,
        user,
        user_underlying,
        token_program,
        amount,
    ) {
        Err(e) => Err(e),
        Ok(a1) => match tokenize_principal_spec(
            config,
            lysergic_tokenizer,
            principal_token_mint,
            user,
            user_principal,
            token_program,
            Some(system_program),
            Some(associated_token_program),
            amount,
            now,
        ) {
            Err(e) => Err(e),
            Ok(a2) => match tokenize_yield_spec(
                config,
                lysergic_tokenizer,
                yield_token_mint,
                user,
                user_yield,
                token_program,
                Some(system_program),
                Some(associated_token_program),
                amount,
                now,
            ) {
                Err(e) => Err(e),
                Ok(a3) => Ok(a1 + a2 + a3),
            },
        },
    }
}

/// What the combined redemption resolves to: the principal leg with the
/// maturity gate bypassed, then the yield claim, the same amount each.
pub open spec fn redeem_principal_and_yield_spec(
    config: ProtocolConfig,
    lysergic_tokenizer: AccountView,
    underlying_vault: AccountView,
    underlying_mint: AccountView,
    principal_token_mint: AccountView,
    yield_token_mint: AccountView,
    user: AccountView,
    user_underlying: AccountView,
    user_principal: AccountView,
    user_yield: AccountView,
    token_program: AccountView,
    amount: u64,
    now: i64,
) -> Result<Seq<ActionView>, TokenizerError> {
    match redeem_principal_spec(
        config,
        lysergic_tokenizer,
        underlying_vault,
        underlying_mint,
        principal_token_mint,
        user,
        user_underlying,
        user_principal,
        token_program,
        None,
        false,
        amount,
        now,
    ) {
        Err(e) => Err(e),
        Ok(a1) => match claim_yield_spec(
            config,
            lysergic_tokenizer,
            underlying_vault,
            underlying_mint,
            yield_token_mint,
            user,
            user_underlying,
            user_yield,
            token_program,
            None,
            amount,
        ) {
            Err(e) => Err(e),
            Ok(a2) => Ok(a1 + a2),
        },
    }
}


/// What one dispatched instruction resolves to: the corresponding
/// handler's result, after the entry identity check and with the supplied
/// account list read positionally; a list shorter than the instruction
/// needs is rejected.
pub open spec fn process_spec(
    config: ProtocolConfig,
    env: Env,
    program_id: Addr,
    instruction: TokenizerInstruction,
    accounts: Seq<AccountView>,
) -> Result<Seq<ActionView>, TokenizerError> {
    if program_id@ != config.program_id@ {
        Err(TokenizerError::IncorrectProgramId)
    } else {
        match instruction {
            TokenizerInstruction::InitializeTokenizer {
                underlying_mint,
                principal_token_mint,
                yield_token_mint,
                expiry,
                fixed_apy,
            } => if accounts.len() < 7 {
                Err(TokenizerError::NotEnoughAccountKeys)
            } else {
                initialize_lysergic_tokenizer_spec(
                    config,
                    env,
                    accounts[0],
                    accounts[1],
                    accounts[2],
                    accounts[3],
                    accounts[4],
                    accounts[5],
                    accounts[6],
                    underlying_mint,
                    principal_token_mint,
                    yield_token_mint,
                    expiry,
                    fixed_apy,
                )
            },
            TokenizerInstruction::InitializeMints { underlying_mint, expiry } => if accounts.len()
                < 7 {
                Err(TokenizerError::NotEnoughAccountKeys)
            } else {
                initialize_mints_spec(
                    config,
                    env,
                    accounts[0],
                    accounts[1],
                    accounts[2],
                    accounts[3],
                    accounts[4],
                    accounts[5],
                    accounts[6],
                    underlying_mint,
                    expiry,
                )
            },
            TokenizerInstruction::InitializeTokenizerAndMints {
                underlying_mint,
                principal_token_mint,
                yield_token_mint,
                expiry,
                fixed_apy,
            } => if accounts.len() < 9 {
                Err(TokenizerError::NotEnoughAccountKeys)
            } else {
                initialize_tokenizer_and_mints_spec(
                    config,
                    env,
                    accounts[0],
                    accounts[1],
                    accounts[2],
                    accounts[3],
                    accounts[4],
                    accounts[5],
                    accounts[6],
                    accounts[7],
                    accounts[8],
                    underlying_mint,
                    principal_token_mint,
                    yield_token_mint,
                    expiry,
                    fixed_apy,
                )
            },
            TokenizerInstruction::DepositUnderlying { amount } => if accounts.len() < 5 {
                Err(TokenizerError::NotEnoughAccountKeys)
            } else {
                deposit_underlying_spec(
                    config,
                    accounts[0],
                    accounts[1],
                    accounts[2],
                    accounts[3],
                    accounts[4],
                    amount,
                )
            },
            TokenizerInstruction::TokenizePrincipal { amount } => if accounts.len() < 5 {
                Err(TokenizerError::NotEnoughAccountKeys)
            } else {
                tokenize_principal_spec(
                    config,
                    accounts[0],
                    accounts[1],
                    accounts[2],
                    accounts[3],
                    accounts[4],
                    if accounts.len() > 5 {
                        Some(accounts[5])
                    } else {
                        None
                    },
                    if accounts.len() > 6 {
                        Some(accounts[6])
                    } else {
                        None
                    },
                    amount,
                    env.now,
                )
            },
            TokenizerInstruction::TokenizeYield { amount } => if accounts.len() < 5 {
                Err(TokenizerError::NotEnoughAccountKeys)
            } else {
                tokenize_yield_spec(
                    config,
                    accounts[0],
                    accounts[1],
                    accounts[2],
                    accounts[3],
                    accounts[4],
                    if accounts.len() > 5 {
                        Some(accounts[5])
                    } else {
                        None
                    },
                    if accounts.len() > 6 {
                        Some(accounts[6])
                    } else {
                        None
                    },
                    amount,
                    env.now,
                )
            },
            TokenizerInstruction::DepositAndTokenize { amount } => if accounts.len() < 11 {
                Err(TokenizerError::NotEnoughAccountKeys)
            } else {
                deposit_and_tokenize_spec(
                    config,
                    accounts[0],
                    accounts[1],
                    accounts[2],
                    accounts[3],
                    accounts[4],
                    accounts[5],
                    accounts[6],
                    accounts[7],
                    accounts[8],
                    accounts[9],
                    accounts[10],
                    amount,
                    env.now,
                )
            },
            TokenizerInstruction::RedeemPrincipalAndYield { amount } => if accounts.len() < 10 {
                Err(TokenizerError::NotEnoughAccountKeys)
            } else {
                redeem_principal_and_yield_spec(
                    config,
                    accounts[0],
                    accounts[1],
                    accounts[2],
                    accounts[3],
                    accounts[4],
                    accounts[5],
                    accounts[6],
                    accounts[7],
                    accounts[8],
                    accounts[9],
                    amount,
                    env.now,
                )
            },
            TokenizerInstruction::RedeemMaturePrincipal { principal_amount } => if accounts.len()
                < 8 {
                Err(TokenizerError::NotEnoughAccountKeys)
            } else {
                redeem_principal_spec(
                    config,
                    accounts[0],
                    accounts[1],
                    accounts[2],
                    accounts[3],
                    accounts[4],
                    accounts[5],
                    accounts[6],
                    accounts[7],
                    if accounts.len() > 8 {
                        Some(accounts[8])
                    } else {
                        None
                    },
                    true,
                    principal_amount,
                    env.now,
                )
            },
            TokenizerInstruction::ClaimYield { yield_amount } => if accounts.len() < 8 {
                Err(TokenizerError::NotEnoughAccountKeys)
            } else {
                claim_yield_spec(
                    config,
                    accounts[0],
                    accounts[1],
                    accounts[2],
                    accounts[3],
                    accounts[4],
                    accounts[5],
                    accounts[6],
                    accounts[7],
                    if accounts.len() > 8 {
                        Some(accounts[8])
                    } else {
                        None
                    },
                    yield_amount,
                )
            },
            TokenizerInstruction::Terminate => if accounts.len() < 7 {
                Err(TokenizerError::NotEnoughAccountKeys)
            } else {
                terminate_spec(
                    config,
                    accounts[0],
                    accounts[1],
                    accounts[2],
                    accounts[3],
                    accounts[4],
                    accounts[5],
                    accounts[6],
                    env.now,
                )
            },
            TokenizerInstruction::TerminateTokenizer => if accounts.len() < 5 {
                Err(TokenizerError::NotEnoughAccountKeys)
            } else {
                terminate_lysergic_tokenizer_spec(
                    config,
                    accounts[0],
                    accounts[1],
                    accounts[2],
                    accounts[3],
                    accounts[4],
                    env.now,
                )
            },
            TokenizerInstruction::TerminateMints => if accounts.len() < 6 {
                Err(TokenizerError::NotEnoughAccountKeys)
            } else {
                terminate_mints_spec(
                    config,
                    accounts[0],
                    accounts[1],
                    accounts[2],
                    accounts[3],
                    accounts[4],
                    accounts[5],
                    env.now,
                )
            },
        }
    }
}

impl TokenizerProcessor {
    /// Transfer `amount` underlying from the caller's canonical
    /// sub-account into the vault.
    pub fn process_deposit_underlying(
        config: &ProtocolConfig,
        lysergic_tokenizer: &AccountView,
        underlying_vault: &AccountView,
        user: &AccountView,
        user_underlying: &AccountView,
        token_program: &AccountView,
        amount: u64,
    ) -> (r: Result<Vec<Action>, TokenizerError>)
        ensures
            result_view(r) == deposit_underlying_spec(
                *config,
                *lysergic_tokenizer,
                *underlying_vault,
                *user,
                *user_underlying,
                *token_program,
                amount,
            ),
    {
        let ghost g = deposit_underlying_spec(
            *config,
            *lysergic_tokenizer,
            *underlying_vault,
            *user,
            *user_underlying,
            *token_program,
            amount,
        );
        let base = ui_amount_to_base(amount);
        if !(lysergic_tokenizer.owner == config.program_id) {
            return Err(TokenizerError::TokenizerNotInitialized);
        }
        let state = match LysergicTokenizerState::deserialize(&lysergic_tokenizer.data) {
            Ok(s) => s,
            Err(e) => {
                return Err(e);
            },
        };
        if !(underlying_vault.owner == token_service_id()) {
            return Err(TokenizerError::IncorrectVaultAddress);
        }
        if !(underlying_vault.key == state.underlying_vault) {
            return Err(TokenizerError::IncorrectVaultAddress);
        }
        if !user.is_signer {
            return Err(TokenizerError::MissingRequiredSignature);
        }
        let expected_user_underlying = match derive_associated_account_address(
            &user.key,
            &state.underlying_mint,
        ) {
            Some((a, b)) => a,
            None => {
                return Err(TokenizerError::AddressDerivationFailed);
            },
        };
        if !(user_underlying.key == expected_user_underlying) {
            return Err(TokenizerError::InvalidUserAccount);
        }
        if !(token_program.key == token_service_id()) {
            return Err(TokenizerError::IncorrectProgramId);
        }
        let mut acts: Vec<Action> = Vec::new();
        acts.push(
            Action::Transfer {
                source: user_underlying.key,
                destination: underlying_vault.key,
                authority: user.key,
                amount: base,
                seeds: SignerSeeds::Caller,
            },
        );
        proof {
            assert(g is Ok);
            assert(acts.deep_view() =~~= g->Ok_0);
        }
        Ok(acts)
    }

    /// Mint `amount` principal tokens to the caller's canonical
    /// principal sub-account, creating that sub-account first when it
    /// does not exist yet.
    pub fn process_tokenize_principal(
        config: &ProtocolConfig,
        lysergic_tokenizer: &AccountView,
        principal_token_mint: &AccountView,
        user: &AccountView,
        user_principal: &AccountView,
        token_program: &AccountView,
        system_program: Option<&AccountView>,
        associated_token_program: Option<&AccountView>,
        amount: u64,
        now: i64,
    ) -> (r: Result<Vec<Action>, TokenizerError>)
        ensures
            result_view(r) == tokenize_principal_spec(
                *config,
                *lysergic_tokenizer,
                *principal_token_mint,
                *user,
                *user_principal,
                *token_program,
                opt_account(system_program),
                opt_account(associated_token_program),
                amount,
                now,
            ),
    {
        let ghost g = tokenize_principal_spec(
            *config,
            *lysergic_tokenizer,
            *principal_token_mint,
            *user,
            *user_principal,
            *token_program,
            opt_account(system_program),
            opt_account(associated_token_program),
            amount,
            now,
        );
        let base = ui_amount_to_base(amount);
        if !(lysergic_tokenizer.owner == config.program_id) {
            return Err(TokenizerError::TokenizerNotInitialized);
        }
        let state = match LysergicTokenizerState::deserialize(&lysergic_tokenizer.data) {
            Ok(s) => s,
            Err(e) => {
                return Err(e);
            },
        };
        if state.expiry_date <= now {
            return Err(TokenizerError::ExpiryDateElapsed);
        }
        if !(principal_token_mint.key == state.principal_token_mint) {
            return Err(TokenizerError::IncorrectPrincipalMintAddress);
        }
        let expected_user_principal = match derive_associated_account_address(
            &user.key,
            &state.principal_token_mint,
        ) {
            Some((a, b)) => a,
            None => {
                return Err(TokenizerError::AddressDerivationFailed);
            },
        };
        if !(user_principal.key == expected_user_principal) {
            return Err(TokenizerError::InvalidUserAccount);
        }
        if !(token_program.key == token_service_id()) {
            return Err(TokenizerError::IncorrectProgramId);
        }
        let mut acts: Vec<Action> = Vec::new();
        if !(user_principal.owner == token_program.key) {
            let sys = match system_program {
                Some(a) => a,
                None => {
                    return Err(TokenizerError::NotEnoughAccountKeys);
                },
            };
            let atoken = match associated_token_program {
                Some(a) => a,
                None => {
                    return Err(TokenizerError::NotEnoughAccountKeys);
                },
            };
            if !(sys.key == system_program_id()) {
                return Err(TokenizerError::IncorrectProgramId);
            }
            if !(atoken.key == associated_token_service_id()) {
                return Err(TokenizerError::IncorrectProgramId);
            }
            acts.push(
                Action::CreateAssociatedAccount {
                    payer: user.key,
                    wallet: user.key,
                    mint: state.principal_token_mint,
                    address: user_principal.key,
                },
            );
        }
        acts.push(
            Action::MintTo {
                mint: principal_token_mint.key,
                destination: user_principal.key,
                authority: lysergic_tokenizer.key,
                amount: base,
                seeds: SignerSeeds::Tokenizer {
                    underlying_mint: state.underlying_mint,
                    expiry_date: state.expiry_date,
                    bump: state.bump,
                },
            },
        );
        proof {
            assert(g is Ok);
            assert(acts.deep_view() =~~= g->Ok_0);
        }
        Ok(acts)
    }

    /// Mint `amount` yield tokens to the caller's canonical yield
    /// sub-account, creating that sub-account first when it does not
    /// exist yet.
    pub fn process_tokenize_yield(
        config: &ProtocolConfig,
        lysergic_tokenizer: &AccountView,
        yield_token_mint: &AccountView,
        user: &AccountView,
        user_yield: &AccountView,
        token_program: &AccountView,
        system_program: Option<&AccountView>,
        associated_token_program: Option<&AccountView>,
        amount: u64,
        now: i64,
    ) -> (r: Result<Vec<Action>, TokenizerError>)
        ensures
            result_view(r) == tokenize_yield_spec(
                *config,
                *lysergic_tokenizer,
                *yield_token_mint,
                *user,
                *user_yield,
                *token_program,
                opt_account(system_program),
                opt_account(associated_token_program),
                amount,
                now,
            ),
    {
        let ghost g = tokenize_yield_spec(
            *config,
            *lysergic_tokenizer,
            *yield_token_mint,
            *user,
            *user_yield,
            *token_program,
            opt_account(system_program),
            opt_account(associated_token_program),
            amount,
            now,
        );
        let base = ui_amount_to_base(amount);
        if !(lysergic_tokenizer.owner == config.program_id) {
            return Err(TokenizerError::TokenizerNotInitialized);
        }
        let state = match LysergicTokenizerState::deserialize(&lysergic_tokenizer.data) {
            Ok(s) => s,
            Err(e) => {
                return Err(e);
            },
        };
        if state.expiry_date <= now {
            return Err(TokenizerError::ExpiryDateElapsed);
        }
        if !(yield_token_mint.key == state.yield_token_mint) {
            return Err(TokenizerError::IncorrectYieldMintAddress);
        }
        let expected_user_yield = match derive_associated_account_address(
            &user.key,
            &state.yield_token_mint,
        ) {
            Some((a, b)) => a,
            None => {
                return Err(TokenizerError::AddressDerivationFailed);
            },
        };
        if !(user_yield.key == expected_user_yield) {
            return Err(TokenizerError::InvalidUserAccount);
        }
        if !(token_program.key == token_service_id()) {
            return Err(TokenizerError::IncorrectProgramId);
        }
        let mut acts: Vec<Action> = Vec::new();
        if !(user_yield.owner == token_program.key) {
            let sys = match system_program {
                Some(a) => a,
                None => {
                    return Err(TokenizerError::NotEnoughAccountKeys);
                },
            };
            let atoken = match associated_token_program {
                Some(a) => a,
                None => {
                    return Err(TokenizerError::NotEnoughAccountKeys);
                },
            };
            if !(sys.key == system_program_id()) {
                return Err(TokenizerError::IncorrectProgramId);
            }
            if !(atoken.key == associated_token_service_id()) {
                return Err(TokenizerError::IncorrectProgramId);
            }
            acts.push(
                Action::CreateAssociatedAccount {
                    payer: user.key,
                    wallet: user.key,
                    mint: state.yield_token_mint,
                    address: user_yield.key,
                },
            );
        }
        acts.push(
            Action::MintTo {
                mint: yield_token_mint.key,
                destination: user_yield.key,
                authority: lysergic_tokenizer.key,
                amount: base,
                seeds: SignerSeeds::Tokenizer {
                    underlying_mint: state.underlying_mint,
                    expiry_date: state.expiry_date,
                    bump: state.bump,
                },
            },
        );
        proof {
            assert(g is Ok);
            assert(acts.deep_view() =~~= g->Ok_0);
        }
        Ok(acts)
    }

    /// Redeem principal for underlying under the given rule set: burn
    /// from the caller, pay out of the vault.
    pub fn process_redeem_principal(
        config: &ProtocolConfig,
        lysergic_tokenizer: &AccountView,
        underlying_vault: &AccountView,
        underlying_mint: &AccountView,
        principal_token_mint: &AccountView,
        user: &AccountView,
        user_underlying: &AccountView,
        user_principal: &AccountView,
        token_program: &AccountView,
        system_program: Option<&AccountView>,
        redemption_mode: RedemptionMode,
        amount: u64,
        now: i64,
    ) -> (r: Result<Vec<Action>, TokenizerError>)
        ensures
            result_view(r) == redeem_principal_spec(
                *config,
                *lysergic_tokenizer,
                *underlying_vault,
                *underlying_mint,
                *principal_token_mint,
                *user,
                *user_underlying,
                *user_principal,
                *token_program,
                opt_account(system_program),
                redemption_mode is Mature,
                amount,
                now,
            ),
    {
        let ghost g = redeem_principal_spec(
            *config,
            *lysergic_tokenizer,
            *underlying_vault,
            *underlying_mint,
            *principal_token_mint,
            *user,
            *user_underlying,
            *user_principal,
            *token_program,
            opt_account(system_program),
            redemption_mode is Mature,
            amount,
            now,
        );
        let base = ui_amount_to_base(amount);
        if !(lysergic_tokenizer.owner == config.program_id) {
            return Err(TokenizerError::TokenizerNotInitialized);
        }
        let state = match LysergicTokenizerState::deserialize(&lysergic_tokenizer.data) {
            Ok(s) => s,
            Err(e) => {
                return Err(e);
            },
        };
        if let RedemptionMode::Mature = redemption_mode {
            if state.expiry_date > now {
                return Err(TokenizerError::ExpiryDateNotElapsed);
            }
        }
        if !(underlying_vault.owner == token_service_id()) {
            return Err(TokenizerError::IncorrectVaultAddress);
        }
        if !(underlying_vault.key == state.underlying_vault) {
            return Err(TokenizerError::IncorrectVaultAddress);
        }
        if !(underlying_mint.key == state.underlying_mint) {
            return Err(TokenizerError::IncorrectUnderlyingMintAddress);
        }
        if !(principal_token_mint.key == state.principal_token_mint) {
            return Err(TokenizerError::IncorrectPrincipalMintAddress);
        }
        if !user.is_signer {
            return Err(TokenizerError::MissingRequiredSignature);
        }
        let expected_user_underlying = match derive_associated_account_address(
            &user.key,
            &state.underlying_mint,
        ) {
            Some((a, b)) => a,
            None => {
                return Err(TokenizerError::AddressDerivationFailed);
            },
        };
        if !(user_underlying.key == expected_user_underlying) {
            return Err(TokenizerError::InvalidUserAccount);
        }
        let expected_user_principal = match derive_associated_account_address(
            &user.key,
            &state.principal_token_mint,
        ) {
            Some((a, b)) => a,
            None => {
                return Err(TokenizerError::AddressDerivationFailed);
            },
        };
        if !(user_principal.key == expected_user_principal) {
            return Err(TokenizerError::InvalidUserAccount);
        }
        if !(token_program.key == token_service_id()) {
            return Err(TokenizerError::IncorrectProgramId);
        }
        if user_principal.data.len() != TOKEN_ACCOUNT_SIZE {
            return Err(TokenizerError::InvalidAccountData);
        }
        let held = match unpack_token_amount(&user_principal.data) {
            Ok(a) => a,
            Err(e) => {
                return Err(e);
            },
        };
        if held < base {
            return Err(TokenizerError::InsufficientFunds);
        }
        let mut acts: Vec<Action> = Vec::new();
        if !(user_underlying.owner == token_program.key) {
            let sys = match system_program {
                Some(a) => a,
                None => {
                    return Err(TokenizerError::NotEnoughAccountKeys);
                },
            };
            if !(sys.key == system_program_id()) {
                return Err(TokenizerError::IncorrectProgramId);
            }
            acts.push(
                Action::CreateAssociatedAccount {
                    payer: user.key,
                    wallet: user.key,
                    mint: state.underlying_mint,
                    address: user_underlying.key,
                },
            );
        }
        acts.push(
            Action::Burn {
                source: user_principal.key,
                mint: principal_token_mint.key,
                owner: user.key,
                amount: base,
            },
        );
        acts.push(
            Action::Transfer {
                source: underlying_vault.key,
                destination: user_underlying.key,
                authority: lysergic_tokenizer.key,
                amount: base,
                seeds: SignerSeeds::Tokenizer {
                    underlying_mint: state.underlying_mint,
                    expiry_date: state.expiry_date,
                    bump: state.bump,
                },
            },
        );
        proof {
            assert(g is Ok);
            assert(acts.deep_view() =~~= g->Ok_0);
        }
        Ok(acts)
    }

    /// Redeem mature principal: the maturity-gated redemption.
    pub fn process_redeem_mature_principal(
        config: &ProtocolConfig,
        lysergic_tokenizer: &AccountView,
        underlying_vault: &AccountView,
        underlying_mint: &AccountView,
        principal_token_mint: &AccountView,
        user: &AccountView,
        user_underlying: &AccountView,
        user_principal: &AccountView,
        token_program: &AccountView,
        system_program: Option<&AccountView>,
        amount: u64,
        now: i64,
    ) -> (r: Result<Vec<Action>, TokenizerError>)
        ensures
            result_view(r) == redeem_principal_spec(
                *config,
                *lysergic_tokenizer,
                *underlying_vault,
                *underlying_mint,
                *principal_token_mint,
                *user,
                *user_underlying,
                *user_principal,
                *token_program,
                opt_account(system_program),
                true,
                amount,
                now,
            ),
    {
        Self::process_redeem_principal(
            config,
            lysergic_tokenizer,
            underlying_vault,
            underlying_mint,
            principal_token_mint,
            user,
            user_underlying,
            user_principal,
            token_program,
            system_program,
            RedemptionMode::Mature,
            amount,
            now,
        )
    }

    /// Burn `amount` yield tokens from the caller and pay the same
    /// amount of underlying from the vault; legal at any time.
    pub fn process_claim_yield(
        config: &ProtocolConfig,
        lysergic_tokenizer: &AccountView,
        underlying_vault: &AccountView,
        underlying_mint: &AccountView,
        yield_token_mint: &AccountView,
        user: &AccountView,
        user_underlying: &AccountView,
        user_yield: &AccountView,
        token_program: &AccountView,
        system_program: Option<&AccountView>,
        amount: u64,
    ) -> (r: Result<Vec<Action>, TokenizerError>)
        ensures
            result_view(r) == claim_yield_spec(
                *config,
                *lysergic_tokenizer,
                *underlying_vault,
                *underlying_mint,
                *yield_token_mint,
                *user,
                *user_underlying,
                *user_yield,
                *token_program,
                opt_account(system_program),
                amount,
            ),
    {
        let ghost g = claim_yield_spec(
            *config,
            *lysergic_tokenizer,
            *underlying_vault,
            *underlying_mint,
            *yield_token_mint,
            *user,
            *user_underlying,
            *user_yield,
            *token_program,
            opt_account(system_program),
            amount,
        );
        let base = ui_amount_to_base(amount);
        if !(lysergic_tokenizer.owner == config.program_id) {
            return Err(TokenizerError::TokenizerNotInitialized);
        }
        let state = match LysergicTokenizerState::deserialize(&lysergic_tokenizer.data) {
            Ok(s) => s,
            Err(e) => {
                return Err(e);
            },
        };
        if !(underlying_vault.owner == token_service_id()) {
            return Err(TokenizerError::IncorrectVaultAddress);
        }
        if !(underlying_vault.key == state.underlying_vault) {
            return Err(TokenizerError::IncorrectVaultAddress);
        }
        if !(yield_token_mint.key == state.yield_token_mint) {
            return Err(TokenizerError::IncorrectYieldMintAddress);
        }
        if !user.is_signer {
            return Err(TokenizerError::MissingRequiredSignature);
        }
        let expected_user_underlying = match derive_associated_account_address(
            &user.key,
            &state.underlying_mint,
        ) {
            Some((a, b)) => a,
            None => {
                return Err(TokenizerError::AddressDerivationFailed);
            },
        };
        if !(user_underlying.key == expected_user_underlying) {
            return Err(TokenizerError::InvalidUserAccount);
        }
        let expected_user_yield = match derive_associated_account_address(
            &user.key,
            &state.yield_token_mint,
        ) {
            Some((a, b)) => a,
            None => {
                return Err(TokenizerError::AddressDerivationFailed);
            },
        };
        if !(user_yield.key == expected_user_yield) {
            return Err(TokenizerError::InvalidUserAccount);
        }
        if !(token_program.key == token_service_id()) {
            return Err(TokenizerError::IncorrectProgramId);
        }
        if user_yield.data.len() != TOKEN_ACCOUNT_SIZE {
            return Err(TokenizerError::InvalidAccountData);
        }
        let held = match unpack_token_amount(&user_yield.data) {
            Ok(a) => a,
            Err(e) => {
                return Err(e);
            },
        };
        if held < base {
            return Err(TokenizerError::InsufficientFunds);
        }
        let mut acts: Vec<Action> = Vec::new();
        if !(user_underlying.owner == token_program.key) {
            let sys = match system_program {
                Some(a) => a,
                None => {
                    return Err(TokenizerError::NotEnoughAccountKeys);
                },
            };
            if !(sys.key == system_program_id()) {
                return Err(TokenizerError::IncorrectProgramId);
            }
            acts.push(
                Action::CreateAssociatedAccount {
                    payer: user.key,
                    wallet: user.key,
                    mint: state.underlying_mint,
                    address: user_underlying.key,
                },
            );
        }
        acts.push(
            Action::Burn {
                source: user_yield.key,
                mint: yield_token_mint.key,
                owner: user.key,
                amount: base,
            },
        );
        acts.push(
            Action::Transfer {
                source: underlying_vault.key,
                destination: user_underlying.key,
                authority: lysergic_tokenizer.key,
                amount: base,
                seeds: SignerSeeds::Tokenizer {
                    underlying_mint: state.underlying_mint,
                    expiry_date: state.expiry_date,
                    bump: state.bump,
                },
            },
        );
        proof {
            assert(g is Ok);
            assert(acts.deep_view() =~~= g->Ok_0);
        }
        Ok(acts)
    }

    /// Reclaim the record account: sweep its balance to the authority,
    /// reassign it to the base account service, shrink it to nothing.
    pub fn process_terminate_lysergic_tokenizer(
        config: &ProtocolConfig,
        lysergic_tokenizer: &AccountView,
        authority: &AccountView,
        underlying_vault: &AccountView,
        token_program: &AccountView,
        system_program: &AccountView,
        now: i64,
    ) -> (r: Result<Vec<Action>, TokenizerError>)
        ensures
            result_view(r) == terminate_lysergic_tokenizer_spec(
                *config,
                *lysergic_tokenizer,
                *authority,
                *underlying_vault,
                *token_program,
                *system_program,
                now,
            ),
    {
        let ghost g = terminate_lysergic_tokenizer_spec(
            *config,
            *lysergic_tokenizer,
            *authority,
            *underlying_vault,
            *token_program,
            *system_program,
            now,
        );
        if !(lysergic_tokenizer.owner == config.program_id) {
            return Err(TokenizerError::TokenizerNotInitialized);
        }
        if !authority.is_signer {
            return Err(TokenizerError::MissingRequiredSignature);
        }
        let state = match LysergicTokenizerState::deserialize(&lysergic_tokenizer.data) {
            Ok(s) => s,
            Err(e) => {
                return Err(e);
            },
        };
        if !(authority.key == state.authority) {
            return Err(TokenizerError::Unauthorised);
        }
        if state.expiry_date > now {
            return Err(TokenizerError::ExpiryDateNotElapsed);
        }
        if underlying_vault.data.len() != TOKEN_ACCOUNT_SIZE {
            return Err(TokenizerError::InvalidAccountData);
        }
        let vault_amount = match unpack_token_amount(&underlying_vault.data) {
            Ok(a) => a,
            Err(e) => {
                return Err(e);
            },
        };
        if vault_amount != 0 {
            return Err(TokenizerError::VaultNotEmpty);
        }
        if !(underlying_vault.key == state.underlying_vault) {
            return Err(TokenizerError::IncorrectVaultAddress);
        }
        if !(token_program.key == token_service_id()) {
            return Err(TokenizerError::IncorrectProgramId);
        }
        if !(system_program.key == system_program_id()) {
            return Err(TokenizerError::IncorrectProgramId);
        }
        let seeds = SignerSeeds::Tokenizer {
            underlying_mint: state.underlying_mint,
            expiry_date: state.expiry_date,
            bump: state.bump,
        };
        let mut acts: Vec<Action> = Vec::new();
        acts.push(
            Action::SweepLamports { from: lysergic_tokenizer.key, to: authority.key, seeds },
        );
        acts.push(
            Action::AssignOwner { account: lysergic_tokenizer.key, owner: system_program_id() },
        );
        acts.push(Action::Resize { account: lysergic_tokenizer.key, space: 0u64 });
        proof {
            assert(g is Ok);
            assert(acts.deep_view() =~~= g->Ok_0);
        }
        Ok(acts)
    }

    /// Close both mints, paying their balances to the authority, then
    /// sweep the record's balance to the authority.
    pub fn process_terminate_mints(
        config: &ProtocolConfig,
        lysergic_tokenizer: &AccountView,
        authority: &AccountView,
        principal_token_mint: &AccountView,
        yield_token_mint: &AccountView,
        token_program: &AccountView,
        system_program: &AccountView,
        now: i64,
    ) -> (r: Result<Vec<Action>, TokenizerError>)
        ensures
            result_view(r) == terminate_mints_spec(
                *config,
                *lysergic_tokenizer,
                *authority,
                *principal_token_mint,
                *yield_token_mint,
                *token_program,
                *system_program,
                now,
            ),
    {
        let ghost g = terminate_mints_spec(
            *config,
            *lysergic_tokenizer,
            *authority,
            *principal_token_mint,
            *yield_token_mint,
            *token_program,
            *system_program,
            now,
        );
        if !(lysergic_tokenizer.owner == config.program_id) {
            return Err(TokenizerError::TokenizerNotInitialized);
        }
        if !authority.is_signer {
            return Err(TokenizerError::MissingRequiredSignature);
        }
        let state = match LysergicTokenizerState::deserialize(&lysergic_tokenizer.data) {
            Ok(s) => s,
            Err(e) => {
                return Err(e);
            },
        };
        if !(authority.key == state.authority) {
            return Err(TokenizerError::Unauthorised);
        }
        if state.expiry_date > now {
            return Err(TokenizerError::ExpiryDateNotElapsed);
        }
        if !(principal_token_mint.key == state.principal_token_mint) {
            return Err(TokenizerError::IncorrectPrincipalMintAddress);
        }
        if !(yield_token_mint.key == state.yield_token_mint) {
            return Err(TokenizerError::IncorrectYieldMintAddress);
        }
        if !(token_program.key == token_service_id()) {
            return Err(TokenizerError::IncorrectProgramId);
        }
        if !(system_program.key == system_program_id()) {
            return Err(TokenizerError::IncorrectProgramId);
        }
        let seeds = SignerSeeds::Tokenizer {
            underlying_mint: state.underlying_mint,
            expiry_date: state.expiry_date,
            bump: state.bump,
        };
        let mut acts: Vec<Action> = Vec::new();
        acts.push(
            Action::CloseAccount {
                account: principal_token_mint.key,
                destination: authority.key,
                authority: lysergic_tokenizer.key,
                seeds,
            },
        );
        acts.push(
            Action::CloseAccount {
                account: yield_token_mint.key,
                destination: authority.key,
                authority: lysergic_tokenizer.key,
                seeds,
            },
        );
        acts.push(
            Action::SweepLamports { from: lysergic_tokenizer.key, to: authority.key, seeds },
        );
        proof {
            assert(g is Ok);
            assert(acts.deep_view() =~~= g->Ok_0);
        }
        Ok(acts)
    }

    /// Terminate the instance as one unit: the mints, then the record.
    pub fn process_terminate(
        config: &ProtocolConfig,
        lysergic_tokenizer: &AccountView,
        authority: &AccountView,
        underlying_vault: &AccountView,
        principal_token_mint: &AccountView,
        yield_token_mint: &AccountView,
        token_program: &AccountView,
        system_program: &AccountView,
        now: i64,
    ) -> (r: Result<Vec<Action>, TokenizerError>)
        ensures
            result_view(r) == terminate_spec(
                *config,
                *lysergic_tokenizer,
                *authority,
                *underlying_vault,
                *principal_token_mint,
                *yield_token_mint,
                *token_program,
                *system_program,
                now,
            ),
    {
        let mut acts = match Self::process_terminate_mints(
            config,
            lysergic_tokenizer,
            authority,
            principal_token_mint,
            yield_token_mint,
            token_program,
            system_program,
            now,
        ) {
            Ok(a) => a,
            Err(e) => {
                return Err(e);
            },
        };
        let mut tail = match Self::process_terminate_lysergic_tokenizer(
            config,
            lysergic_tokenizer,
            authority,
            underlying_vault,
            token_program,
            system_program,
            now,
        ) {
            Ok(a) => a,
            Err(e) => {
                return Err(e);
            },
        };
        acts.append(&mut tail);
        proof {
            let g = terminate_spec(
                *config,
                *lysergic_tokenizer,
                *authority,
                *underlying_vault,
                *principal_token_mint,
                *yield_token_mint,
                *token_program,
                *system_program,
                now,
            );
            assert(g is Ok);
            assert(acts.deep_view() =~~= g->Ok_0);
        }
        Ok(acts)
    }

    /// The balance still needed to fund a fresh account.
    fn required_lamports(rent_minimum: u64, held: u64) -> (r: u64)
        ensures
            r == spec_required_lamports(rent_minimum, held),
    {
        let floor = if rent_minimum < 1 {
            1u64
        } else {
            rent_minimum
        };
        if floor > held {
            floor - held
        } else {
            0u64
        }
    }

    /// Create the record account at its derived address, create the
    /// vault, and persist the tokenizer record.
    pub fn process_initialize_lysergic_tokenizer(
        config: &ProtocolConfig,
        env: &Env,
        lysergic_tokenizer: &AccountView,
        authority: &AccountView,
        underlying_vault: &AccountView,
        underlying_mint_account: &AccountView,
        token_program: &AccountView,
        system_program: &AccountView,
        associated_token_program: &AccountView,
        underlying_mint: Addr,
        principal_token_mint: Addr,
        yield_token_mint: Addr,
        expiry: &Expiry,
        fixed_apy: u64,
    ) -> (r: Result<Vec<Action>, TokenizerError>)
        ensures
            result_view(r) == initialize_lysergic_tokenizer_spec(
                *config,
                *env,
                *lysergic_tokenizer,
                *authority,
                *underlying_vault,
                *underlying_mint_account,
                *token_program,
                *system_program,
                *associated_token_program,
                underlying_mint,
                principal_token_mint,
                yield_token_mint,
                *expiry,
                fixed_apy,
            ),
    {
        let ghost g = initialize_lysergic_tokenizer_spec(
            *config,
            *env,
            *lysergic_tokenizer,
            *authority,
            *underlying_vault,
            *underlying_mint_account,
            *token_program,
            *system_program,
            *associated_token_program,
            underlying_mint,
            principal_token_mint,
            yield_token_mint,
            *expiry,
            fixed_apy,
        );
        let expiry_date = match expiry.to_expiry_date(env.now) {
            Some(d) => d,
            None => {
                return Err(TokenizerError::InvalidExpiryDate);
            },
        };
        let (tokenizer_key, bump) = match derive_tokenizer_address(
            &config.program_id,
            &underlying_mint_account.key,
            expiry_date,
        ) {
            Some(p) => p,
            None => {
                return Err(TokenizerError::AddressDerivationFailed);
            },
        };
        let (principal_mint, pb) = match derive_principal_mint_address(
            &config.program_id,
            &tokenizer_key,
        ) {
            Some(p) => p,
            None => {
                return Err(TokenizerError::AddressDerivationFailed);
            },
        };
        let (yield_mint, yb) = match derive_yield_mint_address(&config.program_id, &tokenizer_key) {
            Some(p) => p,
            None => {
                return Err(TokenizerError::AddressDerivationFailed);
            },
        };
        if !(lysergic_tokenizer.key == tokenizer_key) {
            return Err(TokenizerError::IncorrectTokenizerAddress);
        }
        if !authority.is_signer {
            return Err(TokenizerError::MissingRequiredSignature);
        }
        let expected_vault = match derive_associated_account_address(
            &lysergic_tokenizer.key,
            &underlying_mint,
        ) {
            Some((a, b)) => a,
            None => {
                return Err(TokenizerError::AddressDerivationFailed);
            },
        };
        if !(underlying_vault.key == expected_vault) {
            return Err(TokenizerError::IncorrectVaultAddress);
        }
        if !(underlying_mint == underlying_mint_account.key) {
            return Err(TokenizerError::IncorrectUnderlyingMintAddress);
        }
        if !(principal_token_mint == principal_mint) {
            return Err(TokenizerError::IncorrectPrincipalMintAddress);
        }
        if !(yield_token_mint == yield_mint) {
            return Err(TokenizerError::IncorrectYieldMintAddress);
        }
        if !(token_program.key == token_service_id()) {
            return Err(TokenizerError::IncorrectProgramId);
        }
        if !(associated_token_program.key == associated_token_service_id()) {
            return Err(TokenizerError::IncorrectProgramId);
        }
        if !(system_program.key == system_program_id()) {
            return Err(TokenizerError::IncorrectProgramId);
        }
        if lysergic_tokenizer.owner == config.program_id {
            return Err(TokenizerError::TokenizerAlreadyInitialized);
        }
        let required = Self::required_lamports(env.rent_minimum_record, lysergic_tokenizer.lamports);
        let record = LysergicTokenizerState {
            bump,
            authority: authority.key,
            principal_token_mint,
            yield_token_mint,
            underlying_mint,
            underlying_vault: underlying_vault.key,
            expiry_date,
            fixed_apy,
        };
        let mut acts: Vec<Action> = Vec::new();
        acts.push(
            Action::CreateAccount {
                payer: authority.key,
                address: tokenizer_key,
                lamports: required,
                space: LYSERGIC_TOKENIZER_STATE_SIZE as u64,
                owner: config.program_id,
                seeds: SignerSeeds::Tokenizer {
                    underlying_mint: underlying_mint_account.key,
                    expiry_date,
                    bump,
                },
            },
        );
        acts.push(
            Action::CreateAssociatedAccount {
                payer: authority.key,
                wallet: lysergic_tokenizer.key,
                mint: underlying_mint,
                address: underlying_vault.key,
            },
        );
        acts.push(Action::WriteRecord { account: lysergic_tokenizer.key, record });
        proof {
            assert(g is Ok);
            assert(acts.deep_view() =~~= g->Ok_0);
        }
        Ok(acts)
    }

    /// Create and initialize the principal and yield mints at their
    /// derived addresses, with the record as mint authority.
    pub fn process_initialize_mints(
        config: &ProtocolConfig,
        env: &Env,
        lysergic_tokenizer: &AccountView,
        authority: &AccountView,
        underlying_mint_account: &AccountView,
        principal_token_mint_account: &AccountView,
        yield_token_mint_account: &AccountView,
        token_program: &AccountView,
        system_program: &AccountView,
        underlying_mint: Addr,
        expiry: &Expiry,
    ) -> (r: Result<Vec<Action>, TokenizerError>)
        ensures
            result_view(r) == initialize_mints_spec(
                *config,
                *env,
                *lysergic_tokenizer,
                *authority,
                *underlying_mint_account,
                *principal_token_mint_account,
                *yield_token_mint_account,
                *token_program,
                *system_program,
                underlying_mint,
                *expiry,
            ),
    {
        let ghost g = initialize_mints_spec(
            *config,
            *env,
            *lysergic_tokenizer,
            *authority,
            *underlying_mint_account,
            *principal_token_mint_account,
            *yield_token_mint_account,
            *token_program,
            *system_program,
            underlying_mint,
            *expiry,
        );
        let expiry_date = match expiry.to_expiry_date(env.now) {
            Some(d) => d,
            None => {
                return Err(TokenizerError::InvalidExpiryDate);
            },
        };
        let (tokenizer_key, bump) = match derive_tokenizer_address(
            &config.program_id,
            &underlying_mint,
            expiry_date,
        ) {
            Some(p) => p,
            None => {
                return Err(TokenizerError::AddressDerivationFailed);
            },
        };
        let (principal_mint, pbump) = match derive_principal_mint_address(
            &config.program_id,
            &tokenizer_key,
        ) {
            Some(p) => p,
            None => {
                return Err(TokenizerError::AddressDerivationFailed);
            },
        };
        let (yield_mint, ybump) = match derive_yield_mint_address(
            &config.program_id,
            &tokenizer_key,
        ) {
            Some(p) => p,
            None => {
                return Err(TokenizerError::AddressDerivationFailed);
            },
        };
        if !(lysergic_tokenizer.key == tokenizer_key) {
            return Err(TokenizerError::IncorrectTokenizerAddress);
        }
        if !authority.is_signer {
            return Err(TokenizerError::MissingRequiredSignature);
        }
        if !(token_program.key == token_service_id()) {
            return Err(TokenizerError::IncorrectProgramId);
        }
        if lysergic_tokenizer.owner == config.program_id {
            let state = match LysergicTokenizerState::deserialize(&lysergic_tokenizer.data) {
                Ok(s) => s,
                Err(e) => {
                    return Err(e);
                },
            };
            if !(state.principal_token_mint == principal_token_mint_account.key) {
                return Err(TokenizerError::IncorrectPrincipalMintAddress);
            }
            if !(state.yield_token_mint == yield_token_mint_account.key) {
                return Err(TokenizerError::IncorrectYieldMintAddress);
            }
            if !(state.underlying_mint == underlying_mint_account.key) {
                return Err(TokenizerError::IncorrectUnderlyingMintAddress);
            }
            if state.expiry_date != expiry_date {
                return Err(TokenizerError::InvalidExpiryDate);
            }
            let expected_vault = match derive_associated_account_address(
                &lysergic_tokenizer.key,
                &state.underlying_mint,
            ) {
                Some((a, b)) => a,
                None => {
                    return Err(TokenizerError::AddressDerivationFailed);
                },
            };
            if !(state.underlying_vault == expected_vault) {
                return Err(TokenizerError::IncorrectVaultAddress);
            }
        } else {
            if !(principal_token_mint_account.key == principal_mint) {
                return Err(TokenizerError::IncorrectPrincipalMintAddress);
            }
            if !(yield_token_mint_account.key == yield_mint) {
                return Err(TokenizerError::IncorrectYieldMintAddress);
            }
        }
        let required_principal = Self::required_lamports(
            env.rent_minimum_mint,
            principal_token_mint_account.lamports,
        );
        let required_yield = Self::required_lamports(
            env.rent_minimum_mint,
            yield_token_mint_account.lamports,
        );
        let mut acts: Vec<Action> = Vec::new();
        acts.push(
            Action::CreateAccount {
                payer: authority.key,
                address: principal_token_mint_account.key,
                lamports: required_principal,
                space: MINT_SIZE as u64,
                owner: token_service_id(),
                seeds: SignerSeeds::PrincipalMint {
                    tokenizer: lysergic_tokenizer.key,
                    bump: pbump,
                },
            },
        );
        acts.push(
            Action::CreateAccount {
                payer: authority.key,
                address: yield_token_mint_account.key,
                lamports: required_yield,
                space: MINT_SIZE as u64,
                owner: token_service_id(),
                seeds: SignerSeeds::YieldMint { tokenizer: lysergic_tokenizer.key, bump: ybump },
            },
        );
        acts.push(
            Action::InitializeMint {
                mint: principal_token_mint_account.key,
                mint_authority: lysergic_tokenizer.key,
                decimals: 6u8,
            },
        );
        acts.push(
            Action::InitializeMint {
                mint: yield_token_mint_account.key,
                mint_authority: lysergic_tokenizer.key,
                decimals: 6u8,
            },
        );
        proof {
            assert(g is Ok);
            assert(acts.deep_view() =~~= g->Ok_0);
        }
        Ok(acts)
    }

    /// Initialize the tokenizer, then its mints, as one unit.
    pub fn process_initialize_tokenizer_and_mints(
        config: &ProtocolConfig,
        env: &Env,
        lysergic_tokenizer: &AccountView,
        authority: &AccountView,
        underlying_vault: &AccountView,
        underlying_mint_account: &AccountView,
        principal_token_mint_account: &AccountView,
        yield_token_mint_account: &AccountView,
        token_program: &AccountView,
        system_program: &AccountView,
        associated_token_program: &AccountView,
        underlying_mint: Addr,
        principal_token_mint: Addr,
        yield_token_mint: Addr,
        expiry: Expiry,
        fixed_apy: u64,
    ) -> (r: Result<Vec<Action>, TokenizerError>)
        ensures
            result_view(r) == initialize_tokenizer_and_mints_spec(
                *config,
                *env,
                *lysergic_tokenizer,
                *authority,
                *underlying_vault,
                *underlying_mint_account,
                *principal_token_mint_account,
                *yield_token_mint_account,
                *token_program,
                *system_program,
                *associated_token_program,
                underlying_mint,
                principal_token_mint,
                yield_token_mint,
                expiry,
                fixed_apy,
            ),
    {
        let mut acts = match Self::process_initialize_lysergic_tokenizer(
            config,
            env,
            lysergic_tokenizer,
            authority,
            underlying_vault,
            underlying_mint_account,
            token_program,
            system_program,
            associated_token_program,
            underlying_mint,
            principal_token_mint,
            yield_token_mint,
            &expiry,
            fixed_apy,
        ) {
            Ok(a) => a,
            Err(e) => {
                return Err(e);
            },
        };
        let mut tail = match Self::process_initialize_mints(
            config,
            env,
            lysergic_tokenizer,
            authority,
            underlying_mint_account,
            principal_token_mint_account,
            yield_token_mint_account,
            token_program,
            system_program,
            underlying_mint,
            &expiry,
        ) {
            Ok(a) => a,
            Err(e) => {
                return Err(e);
            },
        };
        acts.append(&mut tail);
        proof {
            let g = initialize_tokenizer_and_mints_spec(
                *config,
                *env,
                *lysergic_tokenizer,
                *authority,
                *underlying_vault,
                *underlying_mint_account,
                *principal_token_mint_account,
                *yield_token_mint_account,
                *token_program,
                *system_program,
                *associated_token_program,
                underlying_mint,
                principal_token_mint,
                yield_token_mint,
                expiry,
                fixed_apy,
            );
            assert(g is Ok);
            assert(acts.deep_view() =~~= g->Ok_0);
        }
        Ok(acts)
    }

    /// Deposit, then tokenize principal and yield, as one unit.
    pub fn process_deposit_and_tokenize(
        config: &ProtocolConfig,
        lysergic_tokenizer: &AccountView,
        underlying_vault: &AccountView,
        principal_token_mint: &AccountView,
        yield_token_mint: &AccountView,
        user: &AccountView,
        user_underlying: &AccountView,
        user_principal: &AccountView,
        user_yield: &AccountView,
        token_program: &AccountView,
        system_program: &AccountView,
        associated_token_program: &AccountView,
        amount: u64,
        now: i64,
    ) -> (r: Result<Vec<Action>, TokenizerError>)
        ensures
            result_view(r) == deposit_and_tokenize_spec(
                *config,
                *lysergic_tokenizer,
                *underlying_vault,
                *principal_token_mint,
                *yield_token_mint,
                *user,
                *user_underlying,
                *user_principal,
                *user_yield,
                *token_program,
                *system_program,
                *associated_token_program,
                amount,
                now,
            ),
    {
        let mut acts = match Self::process_deposit_underlying(
            config,
            lysergic_tokenizer,
            underlying_vault,
            user,
            user_underlying,
            token_program,
            amount,
        ) {
            Ok(a) => a,
            Err(e) => {
                return Err(e);
            },
        };
        let mut mid = match Self::process_tokenize_principal(
            config,
            lysergic_tokenizer,
            principal_token_mint,
            user,
            user_principal,
            token_program,
            Some(system_program),
            Some(associated_token_program),
            amount,
            now,
        ) {
            Ok(a) => a,
            Err(e) => {
                return Err(e);
            },
        };
        let mut tail = match Self::process_tokenize_yield(
            config,
            lysergic_tokenizer,
            yield_token_mint,
            user,
            user_yield,
            token_program,
            Some(system_program),
            Some(associated_token_program),
            amount,
            now,
        ) {
            Ok(a) => a,
            Err(e) => {
                return Err(e);
            },
        };
        acts.append(&mut mid);
        acts.append(&mut tail);
        proof {
            let g = deposit_and_tokenize_spec(
                *config,
                *lysergic_tokenizer,
                *underlying_vault,
                *principal_token_mint,
                *yield_token_mint,
                *user,
                *user_underlying,
                *user_principal,
                *user_yield,
                *token_program,
                *system_program,
                *associated_token_program,
                amount,
                now,
            );
            assert(g is Ok);
            assert(acts.deep_view() =~~= g->Ok_0);
        }
        Ok(acts)
    }

    /// Redeem principal with the maturity gate bypassed, then claim
    /// yield, as one unit.
    pub fn process_redeem_principal_and_yield(
        config: &ProtocolConfig,
        lysergic_tokenizer: &AccountView,
        underlying_vault: &AccountView,
        underlying_mint: &AccountView,
        principal_token_mint: &AccountView,
        yield_token_mint: &AccountView,
        user: &AccountView,
        user_underlying: &AccountView,
        user_principal: &AccountView,
        user_yield: &AccountView,
        token_program: &AccountView,
        amount: u64,
        now: i64,
    ) -> (r: Result<Vec<Action>, TokenizerError>)
        ensures
            result_view(r) == redeem_principal_and_yield_spec(
                *config,
                *lysergic_tokenizer,
                *underlying_vault,
                *underlying_mint,
                *principal_token_mint,
                *yield_token_mint,
                *user,
                *user_underlying,
                *user_principal,
                *user_yield,
                *token_program,
                amount,
                now,
            ),
    {
        let mut acts = match Self::process_redeem_principal(
            config,
            lysergic_tokenizer,
            underlying_vault,
            underlying_mint,
            principal_token_mint,
            user,
            user_underlying,
            user_principal,
            token_program,
            None,
            RedemptionMode::PrincipalYield,
            amount,
            now,
        ) {
            Ok(a) => a,
            Err(e) => {
                return Err(e);
            },
        };
        let mut tail = match Self::process_claim_yield(
            config,
            lysergic_tokenizer,
            underlying_vault,
            underlying_mint,
            yield_token_mint,
            user,
            user_underlying,
            user_yield,
            token_program,
            None,
            amount,
        ) {
            Ok(a) => a,
            Err(e) => {
                return Err(e);
            },
        };
        acts.append(&mut tail);
        proof {
            let g = redeem_principal_and_yield_spec(
                *config,
                *lysergic_tokenizer,
                *underlying_vault,
                *underlying_mint,
                *principal_token_mint,
                *yield_token_mint,
                *user,
                *user_underlying,
                *user_principal,
                *user_yield,
                *token_program,
                amount,
                now,
            );
            assert(g is Ok);
            assert(acts.deep_view() =~~= g->Ok_0);
        }
        Ok(acts)
    }

    /// Decode-free entry point: dispatch one instruction against the
    /// supplied account list, positionally, after checking the entry
    /// identity.
    pub fn process(
        config: &ProtocolConfig,
        env: &Env,
        program_id: &Addr,
        instruction: TokenizerInstruction,
        accounts: &Vec<AccountView>,
    ) -> (r: Result<Vec<Action>, TokenizerError>)
        ensures
            result_view(r) == process_spec(*config, *env, *program_id, instruction, accounts@),
    {
        if !(*program_id == config.program_id) {
            return Err(TokenizerError::IncorrectProgramId);
        }
        match instruction {
            TokenizerInstruction::InitializeTokenizer {
                underlying_mint,
                principal_token_mint,
                yield_token_mint,
                expiry,
                fixed_apy,
            } => {
                if accounts.len() < 7 {
                    return Err(TokenizerError::NotEnoughAccountKeys);
                }
                Self::process_initialize_lysergic_tokenizer(
                    config,
                    env,
                    &accounts[0],
                    &accounts[1],
                    &accounts[2],
                    &accounts[3],
                    &accounts[4],
                    &accounts[5],
                    &accounts[6],
                    underlying_mint,
                    principal_token_mint,
                    yield_token_mint,
                    &expiry,
                    fixed_apy,
                )
            },
            TokenizerInstruction::InitializeMints { underlying_mint, expiry } => {
                if accounts.len() < 7 {
                    return Err(TokenizerError::NotEnoughAccountKeys);
                }
                Self::process_initialize_mints(
                    config,
                    env,
                    &accounts[0],
                    &accounts[1],
                    &accounts[2],
                    &accounts[3],
                    &accounts[4],
                    &accounts[5],
                    &accounts[6],
                    underlying_mint,
                    &expiry,
                )
            },
            TokenizerInstruction::InitializeTokenizerAndMints {
                underlying_mint,
                principal_token_mint,
                yield_token_mint,
                expiry,
                fixed_apy,
            } => {
                if accounts.len() < 9 {
                    return Err(TokenizerError::NotEnoughAccountKeys);
                }
                Self::process_initialize_tokenizer_and_mints(
                    config,
                    env,
                    &accounts[0],
                    &accounts[1],
                    &accounts[2],
                    &accounts[3],
                    &accounts[4],
                    &accounts[5],
                    &accounts[6],
                    &accounts[7],
                    &accounts[8],
                    underlying_mint,
                    principal_token_mint,
                    yield_token_mint,
                    expiry,
                    fixed_apy,
                )
            },
            TokenizerInstruction::DepositUnderlying { amount } => {
                if accounts.len() < 5 {
                    return Err(TokenizerError::NotEnoughAccountKeys);
                }
                Self::process_deposit_underlying(
                    config,
                    &accounts[0],
                    &accounts[1],
                    &accounts[2],
                    &accounts[3],
                    &accounts[4],
                    amount,
                )
            },
            TokenizerInstruction::TokenizePrincipal { amount } => {
                if accounts.len() < 5 {
                    return Err(TokenizerError::NotEnoughAccountKeys);
                }
                let sys = if accounts.len() > 5 {
                    Some(&accounts[5])
                } else {
                    None
                };
                let atoken = if accounts.len() > 6 {
                    Some(&accounts[6])
                } else {
                    None
                };
                Self::process_tokenize_principal(
                    config,
                    &accounts[0],
                    &accounts[1],
                    &accounts[2],
                    &accounts[3],
                    &accounts[4],
                    sys,
                    atoken,
                    amount,
                    env.now,
                )
            },
            TokenizerInstruction::TokenizeYield { amount } => {
                if accounts.len() < 5 {
                    return Err(TokenizerError::NotEnoughAccountKeys);
                }
                let sys = if accounts.len() > 5 {
                    Some(&accounts[5])
                } else {
                    None
                };
                let atoken = if accounts.len() > 6 {
                    Some(&accounts[6])
                } else {
                    None
                };
                Self::process_tokenize_yield(
                    config,
                    &accounts[0],
                    &accounts[1],
                    &accounts[2],
                    &accounts[3],
                    &accounts[4],
                    sys,
                    atoken,
                    amount,
                    env.now,
                )
            },
            TokenizerInstruction::DepositAndTokenize { amount } => {
                if accounts.len() < 11 {
                    return Err(TokenizerError::NotEnoughAccountKeys);
                }
                Self::process_deposit_and_tokenize(
                    config,
                    &accounts[0],
                    &accounts[1],
                    &accounts[2],
                    &accounts[3],
                    &accounts[4],
                    &accounts[5],
                    &accounts[6],
                    &accounts[7],
                    &accounts[8],
                    &accounts[9],
                    &accounts[10],
                    amount,
                    env.now,
                )
            },
            TokenizerInstruction::RedeemPrincipalAndYield { amount } => {
                if accounts.len() < 10 {
                    return Err(TokenizerError::NotEnoughAccountKeys);
                }
                Self::process_redeem_principal_and_yield(
                    config,
                    &accounts[0],
                    &accounts[1],
                    &accounts[2],
                    &accounts[3],
                    &accounts[4],
                    &accounts[5],
                    &accounts[6],
                    &accounts[7],
                    &accounts[8],
                    &accounts[9],
                    amount,
                    env.now,
                )
            },
            TokenizerInstruction::RedeemMaturePrincipal { principal_amount } => {
                if accounts.len() < 8 {
                    return Err(TokenizerError::NotEnoughAccountKeys);
                }
                let sys = if accounts.len() > 8 {
                    Some(&accounts[8])
                } else {
                    None
                };
                Self::process_redeem_principal(
                    config,
                    &accounts[0],
                    &accounts[1],
                    &accounts[2],
                    &accounts[3],
                    &accounts[4],
                    &accounts[5],
                    &accounts[6],
                    &accounts[7],
                    sys,
                    RedemptionMode::Mature,
                    principal_amount,
                    env.now,
                )
            },
            TokenizerInstruction::ClaimYield { yield_amount } => {
                if accounts.len() < 8 {
                    return Err(TokenizerError::NotEnoughAccountKeys);
                }
                let sys = if accounts.len() > 8 {
                    Some(&accounts[8])
                } else {
                    None
                };
                Self::process_claim_yield(
                    config,
                    &accounts[0],
                    &accounts[1],
                    &accounts[2],
                    &accounts[3],
                    &accounts[4],
                    &accounts[5],
                    &accounts[6],
                    &accounts[7],
                    sys,
                    yield_amount,
                )
            },
            TokenizerInstruction::Terminate => {
                if accounts.len() < 7 {
                    return Err(TokenizerError::NotEnoughAccountKeys);
                }
                Self::process_terminate(
                    config,
                    &accounts[0],
                    &accounts[1],
                    &accounts[2],
                    &accounts[3],
                    &accounts[4],
                    &accounts[5],
                    &accounts[6],
                    env.now,
                )
            },
            TokenizerInstruction::TerminateTokenizer => {
                if accounts.len() < 5 {
                    return Err(TokenizerError::NotEnoughAccountKeys);
                }
                Self::process_terminate_lysergic_tokenizer(
                    config,
                    &accounts[0],
                    &accounts[1],
                    &accounts[2],
                    &accounts[3],
                    &accounts[4],
                    env.now,
                )
            },
            TokenizerInstruction::TerminateMints => {
                if accounts.len() < 6 {
                    return Err(TokenizerError::NotEnoughAccountKeys);
                }
                Self::process_terminate_mints(
                    config,
                    &accounts[0],
                    &accounts[1],
                    &accounts[2],
                    &accounts[3],
                    &accounts[4],
                    &accounts[5],
                    env.now,
                )
            },
        }
    }
}

} // verus!
