//! The error taxonomy of the instruction processor.
//!
//! Every error is fatal to the enclosing instruction and is surfaced
//! distinctly; nothing is retried internally.

use vstd::prelude::*;

verus! {

/// Why an instruction was rejected.  Each validation rule has its own
/// variant, so callers can tell exactly which precondition failed.
#[derive(Clone, Copy, PartialEq, Eq, Debug)]
pub enum TokenizerError {
    /// The supplied tokenizer record account is not the derived one.
    IncorrectTokenizerAddress,
    /// The supplied vault account is not the record's canonical vault.
    IncorrectVaultAddress,
    /// The supplied underlying mint is not the record's underlying mint.
    IncorrectUnderlyingMintAddress,
    /// The supplied principal mint is not the derived principal mint.
    IncorrectPrincipalMintAddress,
    /// The supplied yield mint is not the derived yield mint.
    IncorrectYieldMintAddress,
    /// A user token account is not the canonical sub-account for its mint.
    InvalidUserAccount,
    /// A required signature is missing.
    MissingRequiredSignature,
    /// The signer is not the stored authority.
    Unauthorised,
    /// The record account is not owned by the protocol yet.
    TokenizerNotInitialized,
    /// The record account is already owned by the protocol.
    TokenizerAlreadyInitialized,
    /// Tokenizing was requested after maturity.
    ExpiryDateElapsed,
    /// A maturity-gated operation was requested before maturity.
    ExpiryDateNotElapsed,
    /// The maturity descriptor does not yield a valid expiry date.
    InvalidExpiryDate,
    /// Termination was requested while the vault still holds funds.
    VaultNotEmpty,
    /// The caller's token balance is below the requested amount.
    InsufficientFunds,
    /// A referenced service is not the platform's known singleton.
    IncorrectProgramId,
    /// Stored account bytes do not decode to the expected shape.
    InvalidAccountData,
    /// The instruction payload did not decode.
    InvalidInstructionData,
    /// The instruction was handed fewer accounts than it needs.
    NotEnoughAccountKeys,
    /// No valid nonce exists in the derivation search range.
    AddressDerivationFailed,
}

} // verus!
