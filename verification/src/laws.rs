//! What holds of the program as a whole.
pub mod accounts;
pub mod addresses;
pub mod amounts;
pub mod calls;
pub mod chain;
pub mod config;
pub mod constraints;
pub mod instructions;
pub mod money;
pub mod session;
