//! Error kinds surfaced by the lending engine and the governance core.
//!
//! Every handler either succeeds with fully repacked records or returns a
//! single error and commits nothing.

use vstd::prelude::*;

verus! {

/// Errors that may be returned by the lending engine.
#[derive(Clone, Copy, PartialEq, Eq, Structural, Debug)]
pub enum LendingError {
    /// The account cannot be initialized because it is already being used.
    AlreadyInUse,
    /// Lamport balance below rent-exempt threshold.
    NotRentExempt,
    /// Invalid input passed in to instruction.
    InvalidInput,
    /// Invalid instruction number passed in.
    InvalidInstruction,
    /// The program address provided doesn't match the value generated by the program.
    InvalidProgramAddress,
    /// The owner of the input isn't set to the program address generated by the program.
    InvalidOwner,
    /// The owner of the account input isn't set to the correct token program id.
    InvalidTokenProgram,
    /// The mint of the collateral token account doesn't match the liquidity mint.
    InvalidCollateral,
    /// The provided token account has a delegate.
    InvalidDelegate,
    /// The provided token account has a close authority.
    InvalidCloseAuthority,
    /// The provided mint account has a freeze authority.
    InvalidFreezeAuthority,
    /// Expected a fungible token account.
    ExpectedTokenAccount,
    /// Expected a fungible token mint.
    ExpectedTokenMint,
    /// Expected an order-book market account.
    ExpectedDexMarket,
    /// The reserve cannot be added to a full pool.
    PoolFull,
    /// The reserve pools must be the same.
    PoolMismatch,
    /// The reserves belong to different lending markets.
    LendingMarketMismatch,
    /// Reserve price is not set.
    ReservePriceUnset,
    /// Reserve price is expired.
    ReservePriceExpired,
    /// Token initialize mint failed.
    TokenInitializeMintFailed,
    /// Token initialize account failed.
    TokenInitializeAccountFailed,
    /// Token transfer failed.
    TokenTransferFailed,
    /// Token mint to failed.
    TokenMintToFailed,
    /// Token burn failed.
    TokenBurnFailed,
}

/// Errors that may be returned by the governance core.
#[derive(Clone, Copy, PartialEq, Eq, Structural, Debug)]
pub enum GovernanceError {
    /// The governance account address does not match the derived address.
    InvalidGovernanceKey,
    /// The transaction's delay has not elapsed since voting ended.
    TooEarlyToExecute,
    /// The transaction slot was already executed.
    ProposalTransactionAlreadyExecuted,
    /// Too many accounts supplied to the instruction.
    TooManyAccountsInInstruction,
    /// Arithmetic overflowed.
    NumericalOverflow,
    /// The proposal is not in the state this operation requires.
    InvalidProposalState,
    /// Malformed bytes or a mismatched cross-account reference.
    InvalidInput,
    /// The supplied token program is not the one this record was built with.
    InvalidTokenProgram,
    /// The record was written by an incompatible version of the program.
    InvalidVersion,
}

} // verus!
