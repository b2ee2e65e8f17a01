//! Conversion of user-facing amounts to base units.
//!
//! All amounts are user-facing decimal quantities converted to base units
//! with a fixed scale of six decimal places; the conversion is the same
//! for principal, yield, and underlying.  A product that would not fit in
//! 64 bits saturates, the machine limit of the ledger's balances.

use vstd::prelude::*;

verus! {

/// The fixed decimal scale: six decimal places.
pub const UI_SCALE: u64 = 1000000;

/// The largest user-facing amount whose base-unit value fits in 64 bits.
pub const MAX_UI_AMOUNT: u64 = 18446744073709;

/// A user-facing amount in base units: the amount times the fixed scale,
/// saturating at the 64-bit limit.
pub open spec fn scale_to_base(amount: u64) -> u64 {
    if amount <= 18446744073709 {
        (amount * 1000000) as u64
    } else {
        u64::MAX
    }
}

/// Convert a user-facing amount to base units.
pub fn ui_amount_to_base(amount: u64) -> (r: u64)
    ensures
        r == scale_to_base(amount),
{
    if amount <= MAX_UI_AMOUNT {
        amount * UI_SCALE
    } else {
        u64::MAX
    }
}

} // verus!
