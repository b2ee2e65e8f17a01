//! The ledger actions an instruction resolves to.
//!
//! A handler validates its inputs and returns the exact sequence of calls
//! into the ledger token service and the base account service that
//! realizes the instruction.  The platform performs them atomically: any
//! failure aborts the whole instruction with no observable state change.

use vstd::prelude::*;
use crate::addr::Addr;
use crate::state::{LysergicTokenizerState, RecordView};

verus! {

/// How a delegated call is authorized: by the caller's own signature, or
/// by replaying the seed tuple of a derived address.
#[derive(Clone, Copy, PartialEq, Eq, Debug)]
pub enum SignerSeeds {
    /// The caller's external signature.
    Caller,
    /// Seed replay of the tokenizer record's derived signing capability.
    Tokenizer { underlying_mint: Addr, expiry_date: i64, bump: u8 },
    /// Seed replay for the principal mint's derived address.
    PrincipalMint { tokenizer: Addr, bump: u8 },
    /// Seed replay for the yield mint's derived address.
    YieldMint { tokenizer: Addr, bump: u8 },
}

/// A `SignerSeeds` over mathematical values.
pub enum SignerSeedsView {
    Caller,
    Tokenizer { underlying_mint: Seq<u8>, expiry_date: i64, bump: u8 },
    PrincipalMint { tokenizer: Seq<u8>, bump: u8 },
    YieldMint { tokenizer: Seq<u8>, bump: u8 },
}

impl DeepView for SignerSeeds {
    type V = SignerSeedsView;

    open spec fn deep_view(&self) -> SignerSeedsView {
        match *self {
            SignerSeeds::Caller => SignerSeedsView::Caller,
            SignerSeeds::Tokenizer { underlying_mint, expiry_date, bump } =>
                SignerSeedsView::Tokenizer { underlying_mint: underlying_mint@, expiry_date, bump },
            SignerSeeds::PrincipalMint { tokenizer, bump } => SignerSeedsView::PrincipalMint {
                tokenizer: tokenizer@,
                bump,
            },
            SignerSeeds::YieldMint { tokenizer, bump } => SignerSeedsView::YieldMint {
                tokenizer: tokenizer@,
                bump,
            },
        }
    }
}

/// One delegated call to a platform service.
#[derive(Clone, Copy, PartialEq, Eq, Debug)]
pub enum Action {
    /// Base account service: create and fund a new account.
    CreateAccount {
        payer: Addr,
        address: Addr,
        lamports: u64,
        space: u64,
        owner: Addr,
        seeds: SignerSeeds,
    },
    /// Canonical-account service: create the canonical token sub-account
    /// of `wallet` for `mint`, at its derived `address`.
    CreateAssociatedAccount { payer: Addr, wallet: Addr, mint: Addr, address: Addr },
    /// Ledger token service: initialize a mint with the given authority,
    /// the fixed decimal scale of six, and no freeze authority.
    InitializeMint { mint: Addr, mint_authority: Addr, decimals: u8 },
    /// Ledger token service: move tokens between token accounts.
    Transfer { source: Addr, destination: Addr, authority: Addr, amount: u64, seeds: SignerSeeds },
    /// Ledger token service: mint new tokens to a token account.
    MintTo { mint: Addr, destination: Addr, authority: Addr, amount: u64, seeds: SignerSeeds },
    /// Ledger token service: burn tokens from a token account.
    Burn { source: Addr, mint: Addr, owner: Addr, amount: u64 },
    /// Ledger token service: close an account, paying its balance out.
    CloseAccount { account: Addr, destination: Addr, authority: Addr, seeds: SignerSeeds },
    /// Base account service: move the account's entire native balance,
    /// read fresh at the time the action is performed.
    SweepLamports { from: Addr, to: Addr, seeds: SignerSeeds },
    /// Persist the tokenizer record into its account.
    WriteRecord { account: Addr, record: LysergicTokenizerState },
    /// Base account service: reassign an account's owning program.
    AssignOwner { account: Addr, owner: Addr },
    /// Base account service: resize an account's storage.
    Resize { account: Addr, space: u64 },
}

/// An `Action` over mathematical values.
pub enum ActionView {
    CreateAccount {
        payer: Seq<u8>,
        address: Seq<u8>,
        lamports: u64,
        space: u64,
        owner: Seq<u8>,
        seeds: SignerSeedsView,
    },
    CreateAssociatedAccount { payer: Seq<u8>, wallet: Seq<u8>, mint: Seq<u8>, address: Seq<u8> },
    InitializeMint { mint: Seq<u8>, mint_authority: Seq<u8>, decimals: u8 },
    Transfer {
        source: Seq<u8>,
        destination: Seq<u8>,
        authority: Seq<u8>,
        amount: u64,
        seeds: SignerSeedsView,
    },
    MintTo {
        mint: Seq<u8>,
        destination: Seq<u8>,
        authority: Seq<u8>,
        amount: u64,
        seeds: SignerSeedsView,
    },
    Burn { source: Seq<u8>, mint: Seq<u8>, owner: Seq<u8>, amount: u64 },
    CloseAccount {
        account: Seq<u8>,
        destination: Seq<u8>,
        authority: Seq<u8>,
        seeds: SignerSeedsView,
    },
    SweepLamports { from: Seq<u8>, to: Seq<u8>, seeds: SignerSeedsView },
    WriteRecord { account: Seq<u8>, record: RecordView },
    AssignOwner { account: Seq<u8>, owner: Seq<u8> },
    Resize { account: Seq<u8>, space: u64 },
}

impl DeepView for Action {
    type V = ActionView;

    open spec fn deep_view(&self) -> ActionView {
        match *self {
            Action::CreateAccount { payer, address, lamports, space, owner, seeds } =>
                ActionView::CreateAccount {
                payer: payer@,
                address: address@,
                lamports,
                space,
                owner: owner@,
                seeds: seeds.deep_view(),
            },
            Action::CreateAssociatedAccount { payer, wallet, mint, address } =>
                ActionView::CreateAssociatedAccount {
                payer: payer@,
                wallet: wallet@,
                mint: mint@,
                address: address@,
            },
            Action::InitializeMint { mint, mint_authority, decimals } => ActionView::InitializeMint {
                mint: mint@,
                mint_authority: mint_authority@,
                decimals,
            },
            Action::Transfer { source, destination, authority, amount, seeds } =>
                ActionView::Transfer {
                source: source@,
                destination: destination@,
                authority: authority@,
                amount,
                seeds: seeds.deep_view(),
            },
            Action::MintTo { mint, destination, authority, amount, seeds } => ActionView::MintTo {
                mint: mint@,
                destination: destination@,
                authority: authority@,
                amount,
                seeds: seeds.deep_view(),
            },
            Action::Burn { source, mint, owner, amount } => ActionView::Burn {
                source: source@,
                mint: mint@,
                owner: owner@,
                amount,
            },
            Action::CloseAccount { account, destination, authority, seeds } =>
                ActionView::CloseAccount {
                account: account@,
                destination: destination@,
                authority: authority@,
                seeds: seeds.deep_view(),
            },
            Action::SweepLamports { from, to, seeds } => ActionView::SweepLamports {
                from: from@,
                to: to@,
                seeds: seeds.deep_view(),
            },
            Action::WriteRecord { account, record } => ActionView::WriteRecord {
                account: account@,
                record: record@,
            },
            Action::AssignOwner { account, owner } => ActionView::AssignOwner {
                account: account@,
                owner: owner@,
            },
            Action::Resize { account, space } => ActionView::Resize { account: account@, space },
        }
    }
}

} // verus!
