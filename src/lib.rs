//! A last-depositor-wins escrow: deposits of one fungible token pile up in a
//! vault, each accepted deposit restarts a countdown whose length depends on
//! the deposit's size, and once the countdown runs out the whole balance is
//! paid to the most recent depositor.
//!
//! The library is the vault's state machine. The clock, the caller's identity
//! and the token transfers themselves belong to the host, which hands their
//! results in as plain values.

pub mod message;
pub mod tiers;
pub mod vault;

pub use message::{Directive, MsgInput};
pub use tiers::countdown_for_amount;
pub use vault::{Contract, Payout, VaultError, VaultState};
