//! A caller-supplied account, as the plain values the processor reads.

use vstd::prelude::*;
use crate::addr::Addr;

verus! {

/// What the processor reads of one supplied ledger account: its address,
/// its owning program, whether its holder signed the instruction, its
/// balance of the platform's native unit, and its stored bytes.
#[derive(Clone, Debug)]
pub struct AccountView {
    pub key: Addr,
    pub owner: Addr,
    pub is_signer: bool,
    pub lamports: u64,
    pub data: Vec<u8>,
}

} // verus!
