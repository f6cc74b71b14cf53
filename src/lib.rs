//! Account validation and custody lifecycle for an escrow program.
//!
//! Accounts are modelled as plain values ([`account::AccountState`]); every
//! check is a pure function of them, and the effects of closing a
//! program-owned account are computed on them.

pub mod account;
pub mod authority;
pub mod interface;
pub mod associated;
pub mod program_account;
