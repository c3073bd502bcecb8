//! The ways in which an instruction is refused.
use vstd::prelude::*;

verus! {

/// A rule of the game or of its configuration is broken.
#[derive(Clone, Copy, Debug, PartialEq, Eq, Structural)]
pub enum GrindieError {
    /// The program is paused.
    Paused,
    /// Only the admin may do this.
    Unauthorized,
    /// A basis-point split does not sum to 10000.
    BpsSumInvalid,
    /// The buy-in lies outside `[min, max]`.
    BuyinOutOfRange,
    /// The wallet does not hold enough tokens for the arena.
    NotHolder,
    /// The session is already finalized.
    SessionFinalized,
    /// The ending id is not one of the known endings.
    BadEnding,
    /// A result does not fit into its integer.
    Overflow,
}

/// An account handed to an instruction breaks a constraint that the
/// instruction places on it.
#[derive(Clone, Copy, Debug, PartialEq, Eq, Structural)]
pub enum AccountError {
    /// An account that has to sign did not.
    NotSigner,
    /// An account that has to be writable is not.
    Mut,
    /// A key recorded in an account is not the key of the account it names.
    HasOne,
    /// The address is not the one that the seeds derive.
    Seeds,
    /// No bump takes the seeds off the curve, so that they derive no address.
    NoBump,
    /// The account that is closed is the one that its rent goes to.
    Close,
    /// The address is not the one that is asked for.
    Address,
    /// A token account is of another mint.
    TokenMint,
    /// A token account is held by another authority.
    TokenOwner,
    /// An associated token account belongs to another token program.
    AssociatedTokenProgram,
    /// A token account is not the associated one of its authority and mint.
    Associated,
}

} // verus!
