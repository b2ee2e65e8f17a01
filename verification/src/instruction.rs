//! The instruction set of the tokenizer.

use vstd::prelude::*;
use crate::addr::Addr;

verus! {

/// A maturity descriptor carried by the initializing instructions.
#[derive(Clone, Copy, PartialEq, Eq, Debug)]
pub enum Expiry {
    /// An absolute maturity timestamp, in seconds.
    At { timestamp: i64 },
    /// A maturity the given number of seconds from now.
    After { seconds: u32 },
}

impl Expiry {
    /// The expiry date a descriptor denotes at time `now`: an absolute
    /// date must lie in the future, a relative one must not overflow the
    /// timestamp range.
    pub open spec fn spec_to_expiry_date(&self, now: i64) -> Option<i64> {
        match *self {
            Expiry::At { timestamp } => if timestamp > now {
                Some(timestamp)
            } else {
                None
            },
            Expiry::After { seconds } => if now + seconds <= i64::MAX {
                Some((now + seconds) as i64)
            } else {
                None
            },
        }
    }

    /// Resolve the descriptor against the clock oracle's reading.
    pub fn to_expiry_date(&self, now: i64) -> (r: Option<i64>)
        ensures
            r == self.spec_to_expiry_date(now),
    {
        match *self {
            Expiry::At { timestamp } => if timestamp > now {
                Some(timestamp)
            } else {
                None
            },
            Expiry::After { seconds } => now.checked_add(seconds as i64),
        }
    }
}

/// The tagged union of the processor's instructions.  Composite variants
/// run their single-purpose parts in sequence as one atomic unit.
#[derive(Clone, Copy, PartialEq, Eq, Debug)]
pub enum TokenizerInstruction {
    InitializeTokenizer {
        underlying_mint: Addr,
        principal_token_mint: Addr,
        yield_token_mint: Addr,
        expiry: Expiry,
        fixed_apy: u64,
    },
    InitializeMints { underlying_mint: Addr, expiry: Expiry },
    InitializeTokenizerAndMints {
        underlying_mint: Addr,
        principal_token_mint: Addr,
        yield_token_mint: Addr,
        expiry: Expiry,
        fixed_apy: u64,
    },
    DepositUnderlying { amount: u64 },
    TokenizePrincipal { amount: u64 },
    TokenizeYield { amount: u64 },
    DepositAndTokenize { amount: u64 },
    RedeemPrincipalAndYield { amount: u64 },
    RedeemMaturePrincipal { principal_amount: u64 },
    ClaimYield { yield_amount: u64 },
    Terminate,
    TerminateTokenizer,
    TerminateMints,
}

} // verus!
