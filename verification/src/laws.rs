//! The protocol's lifecycle laws, stated and proved once and for all.
//!
//! Each proof function here states one law over the handlers'
//! specification functions and the ledger model: address derivation is
//! stable and seed tuples are collision-free, re-initialization is
//! rejected whole, tokenizing is gated by maturity, redemption and yield
//! claims burn and pay exactly the scaled amount, and termination is
//! gated by maturity and vault emptiness.  Where a law speaks of several
//! token accounts at once it assumes their derived addresses are pairwise
//! distinct, which the derivation's collision resistance provides.

use vstd::prelude::*;
use vstd::bytes::lemma_auto_spec_u64_to_from_le_bytes;
use crate::accounts::AccountView;
use crate::action::{ActionView, SignerSeedsView};
use crate::addr::Addr;
use crate::amount::scale_to_base;
use crate::error::TokenizerError;
use crate::instruction::{Expiry, TokenizerInstruction};
use crate::ledger::{run, step, lemma_run_concat, LedgerView};
use crate::pda::{
    lemma_i64_bits_injective, spec_i64_to_le_bytes, tokenizer_address_of, tokenizer_seeds,
};
use crate::processor::{
    claim_yield_spec, deposit_and_tokenize_spec, deposit_underlying_spec,
    initialize_lysergic_tokenizer_spec, process_spec, redeem_principal_spec,
    terminate_lysergic_tokenizer_spec, terminate_mints_spec, terminate_spec,
    tokenize_principal_spec, tokenize_yield_spec, Env, ProtocolConfig,
};
use crate::state::spec_record_of;

verus! {

/// The derived tokenizer address is stable: the same (underlying mint,
/// maturity) pair, under the same protocol identity, always derives the
/// same address and nonce.
pub proof fn lemma_tokenizer_address_stable(
    program_id: Seq<u8>,
    m1: Seq<u8>,
    e1: i64,
    m2: Seq<u8>,
    e2: i64,
)
    requires
        m1 == m2,
        e1 == e2,
    ensures
        tokenizer_address_of(program_id, m1, e1) == tokenizer_address_of(program_id, m2, e2),
{
}

/// Distinct (underlying mint, maturity) pairs give distinct seed tuples,
/// so two tokenizer instances can only share an address if the one-way
/// derivation itself collides.
pub proof fn lemma_tokenizer_seeds_injective(m1: Seq<u8>, e1: i64, m2: Seq<u8>, e2: i64)
    requires
        tokenizer_seeds(m1, e1) == tokenizer_seeds(m2, e2),
    ensures
        m1 == m2,
        e1 == e2,
{
    assert(tokenizer_seeds(m1, e1)[1] == tokenizer_seeds(m2, e2)[1]);
    assert(tokenizer_seeds(m1, e1)[2] == tokenizer_seeds(m2, e2)[2]);
    assert(spec_i64_to_le_bytes(e1) == spec_i64_to_le_bytes(e2));
    lemma_auto_spec_u64_to_from_le_bytes();
    lemma_i64_bits_injective(e1, e2);
}

/// A submission that would initialize a tokenizer when its record is
/// still unowned fails with "already initialized" once the record is
/// owned by the protocol — and, being an error, carries no actions, so
/// nothing of the existing record is overwritten.
pub proof fn lemma_initialize_twice_rejected(
    config: ProtocolConfig,
    env: Env,
    lysergic_tokenizer: AccountView,
    fresh_owner: Addr,
    authority: AccountView,
    underlying_vault: AccountView,
    underlying_mint_account: AccountView,
    token_program: AccountView,
    system_program: AccountView,
    associated_token_program: AccountView,
    underlying_mint: Addr,
    principal_token_mint: Addr,
    yield_token_mint: Addr,
    expiry: Expiry,
    fixed_apy: u64,
)
    requires
        initialize_lysergic_tokenizer_spec(
            config,
            env,
            AccountView { owner: fresh_owner, ..lysergic_tokenizer },
            authority,
            underlying_vault,
            underlying_mint_account,
            token_program,
            system_program,
            associated_token_program,
            underlying_mint,
            principal_token_mint,
            yield_token_mint,
            expiry,
            fixed_apy,
        ) is Ok,
        lysergic_tokenizer.owner@ == config.program_id@,
    ensures
        initialize_lysergic_tokenizer_spec(
            config,
            env,
            lysergic_tokenizer,
            authority,
            underlying_vault,
            underlying_mint_account,
            token_program,
            system_program,
            associated_token_program,
            underlying_mint,
            principal_token_mint,
            yield_token_mint,
            expiry,
            fixed_apy,
        ) == Err::<Seq<ActionView>, TokenizerError>(TokenizerError::TokenizerAlreadyInitialized),
{
}

/// Tokenizing principal is time-gated and only time-gated: a submission
/// that succeeds at one time succeeds unchanged at every time up to the
/// record's expiry date, and fails with "expiry elapsed" at every time
/// after it.
pub proof fn lemma_tokenize_principal_time_gate(
    config: ProtocolConfig,
    lysergic_tokenizer: AccountView,
    principal_token_mint: AccountView,
    user: AccountView,
    user_principal: AccountView,
    token_program: AccountView,
    system_program: Option<AccountView>,
    associated_token_program: Option<AccountView>,
    amount: u64,
    now1: i64,
    now2: i64,
)
    requires
        tokenize_principal_spec(
            config,
            lysergic_tokenizer,
            principal_token_mint,
            user,
            user_principal,
            token_program,
            system_program,
            associated_token_program,
            amount,
            now1,
        ) is Ok,
    ensures
        now2 < spec_record_of(lysergic_tokenizer.data@).expiry_date
            ==> tokenize_principal_spec(
            config,
            lysergic_tokenizer,
            principal_token_mint,
            user,
            user_principal,
            token_program,
            system_program,
            associated_token_program,
            amount,
            now2,
        ) == tokenize_principal_spec(
            config,
            lysergic_tokenizer,
            principal_token_mint,
            user,
            user_principal,
            token_program,
            system_program,
            associated_token_program,
            amount,
            now1,
        ),
        now2 >= spec_record_of(lysergic_tokenizer.data@).expiry_date
            ==> tokenize_principal_spec(
            config,
            lysergic_tokenizer,
            principal_token_mint,
            user,
            user_principal,
            token_program,
            system_program,
            associated_token_program,
            amount,
            now2,
        ) == Err::<Seq<ActionView>, TokenizerError>(TokenizerError::ExpiryDateElapsed),
{
}

/// Tokenizing yield is time-gated exactly as tokenizing principal is.
pub proof fn lemma_tokenize_yield_time_gate(
    config: ProtocolConfig,
    lysergic_tokenizer: AccountView,
    yield_token_mint: AccountView,
    user: AccountView,
    user_yield: AccountView,
    token_program: AccountView,
    system_program: Option<AccountView>,
    associated_token_program: Option<AccountView>,
    amount: u64,
    now1: i64,
    now2: i64,
)
    requires
        tokenize_yield_spec(
            config,
            lysergic_tokenizer,
            yield_token_mint,
            user,
            user_yield,
            token_program,
            system_program,
            associated_token_program,
            amount,
            now1,
        ) is Ok,
    ensures
        now2 < spec_record_of(lysergic_tokenizer.data@).expiry_date
            ==> tokenize_yield_spec(
            config,
            lysergic_tokenizer,
            yield_token_mint,
            user,
            user_yield,
            token_program,
            system_program,
            associated_token_program,
            amount,
            now2,
        ) == tokenize_yield_spec(
            config,
            lysergic_tokenizer,
            yield_token_mint,
            user,
            user_yield,
            token_program,
            system_program,
            associated_token_program,
            amount,
            now1,
        ),
        now2 >= spec_record_of(lysergic_tokenizer.data@).expiry_date
            ==> tokenize_yield_spec(
            config,
            lysergic_tokenizer,
            yield_token_mint,
            user,
            user_yield,
            token_program,
            system_program,
            associated_token_program,
            amount,
            now2,
        ) == Err::<Seq<ActionView>, TokenizerError>(TokenizerError::ExpiryDateElapsed),
{
}

/// At no instant are tokenizing and mature redemption both legal: the
/// maturity date splits the lifecycle into the span where new principal
/// can be minted and the span where it can be redeemed.
pub proof fn lemma_tokenizing_and_mature_redemption_exclusive(
    config: ProtocolConfig,
    lysergic_tokenizer: AccountView,
    principal_token_mint: AccountView,
    underlying_vault: AccountView,
    underlying_mint: AccountView,
    user: AccountView,
    user_underlying: AccountView,
    user_principal: AccountView,
    token_program: AccountView,
    system_program: Option<AccountView>,
    associated_token_program: Option<AccountView>,
    amount: u64,
    now: i64,
)
    requires
        tokenize_principal_spec(
            config,
            lysergic_tokenizer,
            principal_token_mint,
            user,
            user_principal,
            token_program,
            system_program,
            associated_token_program,
            amount,
            now,
        ) is Ok,
    ensures
        redeem_principal_spec(
            config,
            lysergic_tokenizer,
            underlying_vault,
            underlying_mint,
            principal_token_mint,
            user,
            user_underlying,
            user_principal,
            token_program,
            system_program,
            true,
            amount,
            now,
        ) == Err::<Seq<ActionView>, TokenizerError>(TokenizerError::ExpiryDateNotElapsed),
{
}

/// Mature principal redemption is rejected with "expiry not elapsed" at
/// every time strictly before the record's expiry date, whatever
/// else the submission looks like, as long as the record itself is
/// readable and owned by the protocol.
pub proof fn lemma_redeem_mature_before_expiry_rejected(
    config: ProtocolConfig,
    lysergic_tokenizer: AccountView,
    underlying_vault: AccountView,
    underlying_mint: AccountView,
    principal_token_mint: AccountView,
    user: AccountView,
    user_underlying: AccountView,
    user_principal: AccountView,
    token_program: AccountView,
    system_program: Option<AccountView>,
    amount: u64,
    now: i64,
)
    requires
        lysergic_tokenizer.owner@ == config.program_id@,
        lysergic_tokenizer.data@.len() == 177,
        spec_record_of(lysergic_tokenizer.data@).expiry_date > now,
    ensures
        redeem_principal_spec(
            config,
            lysergic_tokenizer,
            underlying_vault,
            underlying_mint,
            principal_token_mint,
            user,
            user_underlying,
            user_principal,
            token_program,
            system_program,
            true,
            amount,
            now,
        ) == Err::<Seq<ActionView>, TokenizerError>(TokenizerError::ExpiryDateNotElapsed),
{
}

/// A successful mature redemption, run against the ledger model, burns
/// exactly the scaled amount of principal and moves exactly that amount
/// of underlying from the vault to the caller, and nothing else.
#[verifier::rlimit(60)]
pub proof fn lemma_redeem_mature_principal_effect(
    config: ProtocolConfig,
    lysergic_tokenizer: AccountView,
    underlying_vault: AccountView,
    underlying_mint: AccountView,
    principal_token_mint: AccountView,
    user: AccountView,
    user_underlying: AccountView,
    user_principal: AccountView,
    token_program: AccountView,
    system_program: Option<AccountView>,
    amount: u64,
    now: i64,
    acts: Seq<ActionView>,
    l: LedgerView,
)
    requires
        redeem_principal_spec(
            config,
            lysergic_tokenizer,
            underlying_vault,
            underlying_mint,
            principal_token_mint,
            user,
            user_underlying,
            user_principal,
            token_program,
            system_program,
            true,
            amount,
            now,
        ) == Ok::<Seq<ActionView>, TokenizerError>(acts),
        user_underlying.owner@ == token_program.key@,
        l.balances.contains_key(user_principal.key@),
        l.balances.contains_key(user_underlying.key@),
        l.balances.contains_key(underlying_vault.key@),
        l.supplies.contains_key(principal_token_mint.key@),
        user_principal.key@ != user_underlying.key@,
        user_principal.key@ != underlying_vault.key@,
        user_underlying.key@ != underlying_vault.key@,
        l.balances[user_principal.key@] >= scale_to_base(amount),
        l.supplies[principal_token_mint.key@] >= scale_to_base(amount),
        l.balances[underlying_vault.key@] >= scale_to_base(amount),
        l.balances[user_underlying.key@] + scale_to_base(amount) <= u64::MAX,
    ensures
        run(l, acts) matches Some(l2) && {
            let base = scale_to_base(amount);
            &&& l2.balances[user_principal.key@] == l.balances[user_principal.key@] - base
            &&& l2.supplies[principal_token_mint.key@] == l.supplies[principal_token_mint.key@]
                - base
            &&& l2.balances[underlying_vault.key@] == l.balances[underlying_vault.key@] - base
            &&& l2.balances[user_underlying.key@] == l.balances[user_underlying.key@] + base
        },
{
    let base = scale_to_base(amount);
    let burn = acts[0];
    let payout = acts[1];
    assert(step(l, burn) is Some);
    let l1 = step(l, burn)->Some_0;
    assert(run(l, acts) == run(l1, acts.drop_first()));
    assert(acts.drop_first()[0] == acts[1]);
    assert(step(l1, payout) is Some);
    let l2 = step(l1, payout)->Some_0;
    assert(acts.drop_first().drop_first() =~= Seq::<ActionView>::empty());
    assert(run(l2, acts.drop_first().drop_first()) == Some(l2));
    assert(run(l1, acts.drop_first()) == Some(l2));
}

/// A successful yield claim, run against the ledger model, burns exactly
/// the scaled amount of yield and moves exactly that amount of underlying
/// from the vault to the caller — the same effect as a mature principal
/// redemption, with no time gate anywhere in its specification.
#[verifier::rlimit(60)]
pub proof fn lemma_claim_yield_effect(
    config: ProtocolConfig,
    lysergic_tokenizer: AccountView,
    underlying_vault: AccountView,
    underlying_mint: AccountView,
    yield_token_mint: AccountView,
    user: AccountView,
    user_underlying: AccountView,
    user_yield: AccountView,
    token_program: AccountView,
    system_program: Option<AccountView>,
    amount: u64,
    acts: Seq<ActionView>,
    l: LedgerView,
)
    requires
        claim_yield_spec(
            config,
            lysergic_tokenizer,
            underlying_vault,
            underlying_mint,
            yield_token_mint,
            user,
            user_underlying,
            user_yield,
            token_program,
            system_program,
            amount,
        ) == Ok::<Seq<ActionView>, TokenizerError>(acts),
        user_underlying.owner@ == token_program.key@,
        l.balances.contains_key(user_yield.key@),
        l.balances.contains_key(user_underlying.key@),
        l.balances.contains_key(underlying_vault.key@),
        l.supplies.contains_key(yield_token_mint.key@),
        user_yield.key@ != user_underlying.key@,
        user_yield.key@ != underlying_vault.key@,
        user_underlying.key@ != underlying_vault.key@,
        l.balances[user_yield.key@] >= scale_to_base(amount),
        l.supplies[yield_token_mint.key@] >= scale_to_base(amount),
        l.balances[underlying_vault.key@] >= scale_to_base(amount),
        l.balances[user_underlying.key@] + scale_to_base(amount) <= u64::MAX,
    ensures
        run(l, acts) matches Some(l2) && {
            let base = scale_to_base(amount);
            &&& l2.balances[user_yield.key@] == l.balances[user_yield.key@] - base
            &&& l2.supplies[yield_token_mint.key@] == l.supplies[yield_token_mint.key@] - base
            &&& l2.balances[underlying_vault.key@] == l.balances[underlying_vault.key@] - base
            &&& l2.balances[user_underlying.key@] == l.balances[user_underlying.key@] + base
        },
{
    let base = scale_to_base(amount);
    let burn = acts[0];
    let payout = acts[1];
    assert(step(l, burn) is Some);
    let l1 = step(l, burn)->Some_0;
    assert(run(l, acts) == run(l1, acts.drop_first()));
    assert(acts.drop_first()[0] == acts[1]);
    assert(step(l1, payout) is Some);
    let l2 = step(l1, payout)->Some_0;
    assert(acts.drop_first().drop_first() =~= Seq::<ActionView>::empty());
    assert(run(l2, acts.drop_first().drop_first()) == Some(l2));
    assert(run(l1, acts.drop_first()) == Some(l2));
}

/// Claiming yield does not read the clock at all: the dispatched result
/// is the same under any two oracle readings.
pub proof fn lemma_claim_yield_time_independent(
    config: ProtocolConfig,
    env1: Env,
    env2: Env,
    program_id: Addr,
    yield_amount: u64,
    accounts: Seq<AccountView>,
)
    ensures
        process_spec(
            config,
            env1,
            program_id,
            TokenizerInstruction::ClaimYield { yield_amount },
            accounts,
        ) == process_spec(
            config,
            env2,
            program_id,
            TokenizerInstruction::ClaimYield { yield_amount },
            accounts,
        ),
{
}

/// Termination is rejected with "expiry not elapsed" at every time
/// strictly before the record's expiry date, for the record leg, the
/// mint leg, and the composite alike.
pub proof fn lemma_terminate_before_expiry_rejected(
    config: ProtocolConfig,
    lysergic_tokenizer: AccountView,
    authority: AccountView,
    underlying_vault: AccountView,
    principal_token_mint: AccountView,
    yield_token_mint: AccountView,
    token_program: AccountView,
    system_program: AccountView,
    now: i64,
)
    requires
        lysergic_tokenizer.owner@ == config.program_id@,
        authority.is_signer,
        lysergic_tokenizer.data@.len() == 177,
        authority.key@ == spec_record_of(lysergic_tokenizer.data@).authority,
        spec_record_of(lysergic_tokenizer.data@).expiry_date > now,
    ensures
        terminate_lysergic_tokenizer_spec(
            config,
            lysergic_tokenizer,
            authority,
            underlying_vault,
            token_program,
            system_program,
            now,
        ) == Err::<Seq<ActionView>, TokenizerError>(TokenizerError::ExpiryDateNotElapsed),
        terminate_mints_spec(
            config,
            lysergic_tokenizer,
            authority,
            principal_token_mint,
            yield_token_mint,
            token_program,
            system_program,
            now,
        ) == Err::<Seq<ActionView>, TokenizerError>(TokenizerError::ExpiryDateNotElapsed),
        terminate_spec(
            config,
            lysergic_tokenizer,
            authority,
            underlying_vault,
            principal_token_mint,
            yield_token_mint,
            token_program,
            system_program,
            now,
        ) == Err::<Seq<ActionView>, TokenizerError>(TokenizerError::ExpiryDateNotElapsed),
{
}

/// Termination is rejected with "vault not empty" whenever the vault
/// still holds any balance, for the record leg and, provided the mint
/// leg's own checks pass, for the composite too.
pub proof fn lemma_terminate_vault_not_empty_rejected(
    config: ProtocolConfig,
    lysergic_tokenizer: AccountView,
    authority: AccountView,
    underlying_vault: AccountView,
    principal_token_mint: AccountView,
    yield_token_mint: AccountView,
    token_program: AccountView,
    system_program: AccountView,
    now: i64,
)
    requires
        lysergic_tokenizer.owner@ == config.program_id@,
        authority.is_signer,
        lysergic_tokenizer.data@.len() == 177,
        authority.key@ == spec_record_of(lysergic_tokenizer.data@).authority,
        spec_record_of(lysergic_tokenizer.data@).expiry_date <= now,
        underlying_vault.data@.len() == 165,
        crate::token_account::token_account_bytes_wf(underlying_vault.data@),
        crate::token_account::spec_token_amount(underlying_vault.data@) != 0,
    ensures
        terminate_lysergic_tokenizer_spec(
            config,
            lysergic_tokenizer,
            authority,
            underlying_vault,
            token_program,
            system_program,
            now,
        ) == Err::<Seq<ActionView>, TokenizerError>(TokenizerError::VaultNotEmpty),
        (principal_token_mint.key@ == spec_record_of(
            lysergic_tokenizer.data@,
        ).principal_token_mint && yield_token_mint.key@ == spec_record_of(
            lysergic_tokenizer.data@,
        ).yield_token_mint && token_program.key@ == crate::pda::token_service_id_bytes()
            && system_program.key@ == crate::addr::system_program_id_bytes()) ==> terminate_spec(
            config,
            lysergic_tokenizer,
            authority,
            underlying_vault,
            principal_token_mint,
            yield_token_mint,
            token_program,
            system_program,
            now,
        ) == Err::<Seq<ActionView>, TokenizerError>(TokenizerError::VaultNotEmpty),
{
}

/// The round trip: depositing an amount and tokenizing the same amount
/// of principal and yield, run against the ledger model, adds exactly
/// the scaled amount to the vault, takes it from the caller's underlying,
/// and mints exactly the scaled amount of each token to the caller.
#[verifier::rlimit(100)]
pub proof fn lemma_deposit_and_tokenize_round_trip(
    config: ProtocolConfig,
    lysergic_tokenizer: AccountView,
    underlying_vault: AccountView,
    principal_token_mint: AccountView,
    yield_token_mint: AccountView,
    user: AccountView,
    user_underlying: AccountView,
    user_principal: AccountView,
    user_yield: AccountView,
    token_program: AccountView,
    system_program: AccountView,
    associated_token_program: AccountView,
    amount: u64,
    now: i64,
    acts: Seq<ActionView>,
    l: LedgerView,
)
    requires
        deposit_and_tokenize_spec(
            config,
            lysergic_tokenizer,
            underlying_vault,
            principal_token_mint,
            yield_token_mint,
            user,
            user_underlying,
            user_principal,
            user_yield,
            token_program,
            system_program,
            associated_token_program,
            amount,
            now,
        ) == Ok::<Seq<ActionView>, TokenizerError>(acts),
        user_principal.owner@ == token_program.key@,
        user_yield.owner@ == token_program.key@,
        l.balances.contains_key(user_underlying.key@),
        l.balances.contains_key(underlying_vault.key@),
        l.balances.contains_key(user_principal.key@),
        l.balances.contains_key(user_yield.key@),
        l.supplies.contains_key(principal_token_mint.key@),
        l.supplies.contains_key(yield_token_mint.key@),
        user_underlying.key@ != underlying_vault.key@,
        user_principal.key@ != user_underlying.key@,
        user_principal.key@ != underlying_vault.key@,
        user_yield.key@ != user_underlying.key@,
        user_yield.key@ != underlying_vault.key@,
        user_yield.key@ != user_principal.key@,
        principal_token_mint.key@ != yield_token_mint.key@,
        l.balances[user_underlying.key@] >= scale_to_base(amount),
        l.balances[underlying_vault.key@] + scale_to_base(amount) <= u64::MAX,
        l.balances[user_principal.key@] + scale_to_base(amount) <= u64::MAX,
        l.balances[user_yield.key@] + scale_to_base(amount) <= u64::MAX,
        l.supplies[principal_token_mint.key@] + scale_to_base(amount) <= u64::MAX,
        l.supplies[yield_token_mint.key@] + scale_to_base(amount) <= u64::MAX,
    ensures
        run(l, acts) matches Some(l2) && {
            let base = scale_to_base(amount);
            &&& l2.balances[underlying_vault.key@] == l.balances[underlying_vault.key@] + base
            &&& l2.balances[user_underlying.key@] == l.balances[user_underlying.key@] - base
            &&& l2.balances[user_principal.key@] == l.balances[user_principal.key@] + base
            &&& l2.balances[user_yield.key@] == l.balances[user_yield.key@] + base
            &&& l2.supplies[principal_token_mint.key@] == l.supplies[principal_token_mint.key@]
                + base
            &&& l2.supplies[yield_token_mint.key@] == l.supplies[yield_token_mint.key@] + base
        },
{
    let base = scale_to_base(amount);
    let a1 = deposit_underlying_spec(
        config,
        lysergic_tokenizer,
        underlying_vault,
        user,
        user_underlying,
        token_program,
        amount,
    )->Ok_0;
    let a2 = tokenize_principal_spec(
        config,
        lysergic_tokenizer,
        principal_token_mint,
        user,
        user_principal,
        token_program,
        Some(system_program),
        Some(associated_token_program),
        amount,
        now,
    )->Ok_0;
    let a3 = tokenize_yield_spec(
        config,
        lysergic_tokenizer,
        yield_token_mint,
        user,
        user_yield,
        token_program,
        Some(system_program),
        Some(associated_token_program),
        amount,
        now,
    )->Ok_0;
    assert(acts == a1 + a2 + a3);
    let state = spec_record_of(lysergic_tokenizer.data@);
    let transfer_in = ActionView::Transfer {
        source: user_underlying.key@,
        destination: underlying_vault.key@,
        authority: user.key@,
        amount: base,
        seeds: SignerSeedsView::Caller,
    };
    let mint_principal = ActionView::MintTo {
        mint: principal_token_mint.key@,
        destination: user_principal.key@,
        authority: lysergic_tokenizer.key@,
        amount: base,
        seeds: SignerSeedsView::Tokenizer {
            underlying_mint: state.underlying_mint,
            expiry_date: state.expiry_date,
            bump: state.bump,
        },
    };
    let mint_yield = ActionView::MintTo {
        mint: yield_token_mint.key@,
        destination: user_yield.key@,
        authority: lysergic_tokenizer.key@,
        amount: base,
        seeds: SignerSeedsView::Tokenizer {
            underlying_mint: state.underlying_mint,
            expiry_date: state.expiry_date,
            bump: state.bump,
        },
    };
    assert(a1 == seq![transfer_in]);
    assert(a2 == seq![mint_principal]);
    assert(a3 == seq![mint_yield]);
    lemma_run_concat(l, a1, a2 + a3);
    assert(step(l, transfer_in) is Some);
    let l1 = step(l, transfer_in)->Some_0;
    assert(a1.drop_first() =~= Seq::<ActionView>::empty());
    assert(run(l1, a1.drop_first()) == Some(l1));
    assert(run(l, a1) == Some(l1));
    lemma_run_concat(l1, a2, a3);
    assert(l1.balances[user_principal.key@] == l.balances[user_principal.key@]);
    assert(step(l1, mint_principal) is Some);
    let lp = step(l1, mint_principal)->Some_0;
    assert(a2.drop_first() =~= Seq::<ActionView>::empty());
    assert(run(lp, a2.drop_first()) == Some(lp));
    assert(run(l1, a2) == Some(lp));
    assert(step(lp, mint_yield) is Some);
    let ly = step(lp, mint_yield)->Some_0;
    assert(a3.drop_first() =~= Seq::<ActionView>::empty());
    assert(run(ly, a3.drop_first()) == Some(ly));
    assert(run(lp, a3) == Some(ly));
    assert(acts =~= a1 + (a2 + a3));
    assert(run(l, acts) == Some(ly));
}

} // verus!
