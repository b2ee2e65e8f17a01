//! A yield-splitting tokenizer: verified instruction-processor logic.
//!
//! The library validates each instruction against canonically derived
//! addresses, enforces the lifecycle rules of a tokenizer instance, and
//! returns the exact sequence of ledger actions that realizes the
//! instruction.  The surrounding platform performs the actions; all
//! decisions are made, and proved, here.

pub mod addr;
pub mod error;
pub mod pda;
pub mod state;
pub mod token_account;
pub mod amount;
pub mod instruction;
pub mod accounts;
pub mod action;
pub mod processor;
pub mod ledger;
pub mod laws;
