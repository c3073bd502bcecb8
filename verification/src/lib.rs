//! The money core of a play-to-risk arena: a player pays a fee and puts a stake
//! into escrow, a backend attests how the run ended, and the session is settled
//! under fixed rules. A win is capped and paid from a vault, a loss is split
//! between the vault and a burn, and an ending can be minted as a soulbound
//! asset.
//!
//! [`contexts`] says which accounts an instruction accepts, [`grindie`] what it
//! does with them, [`money`] which amounts move, [`chain`] how the accounts change
//! over time, and [`laws`] what holds of all of it.
pub mod accounts;
pub mod chain;
pub mod contexts;
pub mod error;
pub mod grindie;
pub mod laws;
pub mod ledger;
pub mod money;
pub mod ops;
pub mod params;
pub mod pda;
pub mod pubkey;
pub mod state;
