//! Timelock records and their vote bookkeeping.
//!
//! An earlier line of the governance core keeps its proposal state inside
//! a timelock set record.  Its vote handler burns voting tokens, mints
//! yes and no tallies, and tips the set into the execution phase when the
//! consensus rule becomes irrevocable; its withdrawal handler releases a
//! voter's escrowed governance tokens.

use vstd::prelude::*;
use crate::authority::{find_authority_bump_seed, pda_search_of};
use crate::error::GovernanceError;
use crate::governance::ConsensusAlgorithm;
use crate::governance::evaluate_consensus;
use crate::keys::Key;
use crate::state::{MintData, TokenAccountData};

verus! {

/// The version of the timelock records this program writes.
pub const TIMELOCK_VERSION: u8 = 1;

/// The version of the timelock set layout this program writes.
pub const TIMELOCK_SET_VERSION: u8 = 1;

/// What state a timelock set is in.
#[derive(Clone, Copy, PartialEq, Eq, Structural, Debug)]
pub enum TimelockStateStatus {
    /// Draft.
    Draft,
    /// Taking votes.
    Voting,
    /// Votes complete, awaiting execution.
    AwaitingExecution,
    /// Defeated.
    Defeated,
    /// Executed.
    Executed,
}

/// Whose token supply defines the vote denominator.
#[derive(Clone, Copy, PartialEq, Eq, Structural, Debug)]
pub enum TimelockType {
    /// The governance mint's supply.
    Governance,
    /// A committee's voting, yes and no supplies together.
    Committee,
}

/// Global program state record.
#[derive(Clone, Copy, Debug)]
pub struct TimelockProgram {
    /// Version of the record.
    pub version: u8,
    /// The program id this record belongs to.
    pub program_id: Key,
    /// The token program this record was built with.
    pub token_program_id: Key,
}

/// Per-proposal voting state of a timelock set.
#[derive(Clone, Debug)]
pub struct TimelockState {
    /// Current state of the set.
    pub status: TimelockStateStatus,
    /// Total voting tokens minted, compared against remaining supply
    /// during consensus.
    pub total_voting_tokens_minted: u64,
    /// Up to ten queued transaction references.
    pub timelock_transactions: Vec<Key>,
    /// Program to invoke on execution.
    pub cross_program_id: Key,
}

/// Consensus configuration of a timelock set.
#[derive(Clone, Copy, Debug)]
pub struct TimelockConfig {
    /// Mint defining voting power for governance-type sets.
    pub governance_mint: Key,
    /// The rule that decides when voting tips.
    pub consensus_algorithm: ConsensusAlgorithm,
    /// Whose supply is the vote denominator.
    pub timelock_type: TimelockType,
}

/// A timelock set: the proposal record of this program line.
#[derive(Clone, Debug)]
pub struct TimelockSet {
    /// Version of the record.
    pub version: u8,
    /// Mint of the per-proposal signatory tokens.
    pub signatory_mint: Key,
    /// Mint of the single admin token.
    pub admin_mint: Key,
    /// Mint of the voting tokens.
    pub voting_mint: Key,
    /// Mint of the yes-vote tally tokens.
    pub yes_voting_mint: Key,
    /// Mint of the no-vote tally tokens.
    pub no_voting_mint: Key,
    /// Dump account for yes tallies on withdrawal.
    pub yes_voting_dump: Key,
    /// Dump account for no tallies on withdrawal.
    pub no_voting_dump: Key,
    /// Escrow holding deposited governance tokens.
    pub governance_holding: Key,
    /// The set's configuration record.
    pub config: Key,
    /// The set's voting state.
    pub state: TimelockState,
}

/// One queued transaction of a timelock set.
#[derive(Clone, Copy, Debug)]
pub struct TimelockTransaction {
    /// Slot at which this transaction may execute.
    pub slot: u64,
    /// Executable account to invoke.
    pub executable: Key,
}

/// Asserts a timelock set is in draft state.
pub fn assert_draft(timelock_set: &TimelockSet) -> (r: Result<(), GovernanceError>)
    ensures
        timelock_set.state.status == TimelockStateStatus::Draft <==> r == Ok::<
            (),
            GovernanceError,
        >(()),
        timelock_set.state.status != TimelockStateStatus::Draft <==> r == Err::<
            (),
            GovernanceError,
        >(GovernanceError::InvalidProposalState),
{
    if !(timelock_set.state.status == TimelockStateStatus::Draft) {
        return Err(GovernanceError::InvalidProposalState);
    }
    Ok(())
}

/// Asserts a timelock set is taking votes.
pub fn assert_voting(timelock_set: &TimelockSet) -> (r: Result<(), GovernanceError>)
    ensures
        timelock_set.state.status == TimelockStateStatus::Voting <==> r == Ok::<
            (),
            GovernanceError,
        >(()),
        timelock_set.state.status != TimelockStateStatus::Voting <==> r == Err::<
            (),
            GovernanceError,
        >(GovernanceError::InvalidProposalState),
{
    if !(timelock_set.state.status == TimelockStateStatus::Voting) {
        return Err(GovernanceError::InvalidProposalState);
    }
    Ok(())
}

/// Asserts a config is of governance type.
pub fn assert_governance(timelock_config: &TimelockConfig) -> (r: Result<(), GovernanceError>)
    ensures
        timelock_config.timelock_type == TimelockType::Governance <==> r == Ok::<
            (),
            GovernanceError,
        >(()),
        timelock_config.timelock_type != TimelockType::Governance <==> r == Err::<
            (),
            GovernanceError,
        >(GovernanceError::InvalidProposalState),
{
    if !(timelock_config.timelock_type == TimelockType::Governance) {
        return Err(GovernanceError::InvalidProposalState);
    }
    Ok(())
}

/// Asserts the proper signatory mint is being used.
pub fn assert_proper_signatory_mint(
    timelock_set: &TimelockSet,
    signatory_mint_key: &Key,
) -> (r: Result<(), GovernanceError>)
    ensures
        timelock_set.signatory_mint == *signatory_mint_key <==> r == Ok::<(), GovernanceError>(
            (),
        ),
        timelock_set.signatory_mint != *signatory_mint_key <==> r == Err::<(), GovernanceError>(
            GovernanceError::InvalidInput,
        ),
{
    if timelock_set.signatory_mint != *signatory_mint_key {
        return Err(GovernanceError::InvalidInput);
    }
    Ok(())
}

/// Asserts the supplied token program is the one the record was built
/// with.
pub fn assert_token_program_is_correct(
    timelock_program: &TimelockProgram,
    token_program_key: &Key,
) -> (r: Result<(), GovernanceError>)
    ensures
        timelock_program.token_program_id == *token_program_key <==> r == Ok::<
            (),
            GovernanceError,
        >(()),
        timelock_program.token_program_id != *token_program_key <==> r == Err::<
            (),
            GovernanceError,
        >(GovernanceError::InvalidTokenProgram),
{
    if timelock_program.token_program_id != *token_program_key {
        return Err(GovernanceError::InvalidTokenProgram);
    }
    Ok(())
}

/// Asserts the program and set records carry the versions this code
/// writes.
pub fn assert_same_version_as_program(
    timelock_program: &TimelockProgram,
    timelock_set: &TimelockSet,
) -> (r: Result<(), GovernanceError>)
    ensures
        r == Ok::<(), GovernanceError>(()) <==> (timelock_program.version == TIMELOCK_VERSION
            && timelock_set.version == TIMELOCK_SET_VERSION),
        r is Err ==> r == Err::<(), GovernanceError>(GovernanceError::InvalidVersion),
{
    if timelock_program.version != TIMELOCK_VERSION {
        return Err(GovernanceError::InvalidVersion);
    }
    if timelock_set.version != TIMELOCK_SET_VERSION {
        return Err(GovernanceError::InvalidVersion);
    }
    Ok(())
}

/// What a vote instructs the host to do once its checks pass.
pub struct VoteResult {
    /// The set, tipped into the execution phase if consensus was reached.
    pub timelock_set: TimelockSet,
    /// Voting tokens to burn from the voter.
    pub burn_amount: u64,
    /// Yes tally tokens to mint.
    pub yes_mint_amount: u64,
    /// No tally tokens to mint.
    pub no_mint_amount: u64,
    /// Whether consensus tipped.
    pub tipped: bool,
}

/// The vote denominator: every voting token that ever existed for this
/// set.
pub open spec fn spec_total_ever_existed(
    config: TimelockConfig,
    governance_mint: MintData,
    voting_mint: MintData,
    yes_mint: MintData,
    no_mint: MintData,
) -> int {
    match config.timelock_type {
        TimelockType::Governance => governance_mint.supply as int,
        TimelockType::Committee => voting_mint.supply + yes_mint.supply + no_mint.supply,
    }
}

/// The tokens counted as still in the no column after this vote.
pub open spec fn spec_now_remaining_in_no_column(
    config: TimelockConfig,
    governance_mint: MintData,
    voting_mint: MintData,
    yes_amount: u64,
    no_amount: u64,
) -> int {
    match config.timelock_type {
        TimelockType::Governance => governance_mint.supply - yes_amount,
        TimelockType::Committee => voting_mint.supply + no_amount,
    }
}

/// The first error a vote instruction hits, if any, in the order the
/// instruction performs its checks.
pub open spec fn spec_vote_error(
    timelock_set: TimelockSet,
    timelock_program: TimelockProgram,
    timelock_config: TimelockConfig,
    voting_mint_key: Key,
    yes_voting_mint_key: Key,
    no_voting_mint_key: Key,
    governance_mint_key: Key,
    timelock_config_key: Key,
    token_program_key: Key,
    program_id: Key,
    timelock_program_key: Key,
    authority_key: Key,
    governance_mint: MintData,
    voting_mint: MintData,
    yes_mint: MintData,
    no_mint: MintData,
    yes_voting_token_amount: u64,
    no_voting_token_amount: u64,
) -> Option<GovernanceError> {
    if timelock_program.token_program_id != token_program_key {
        Some(GovernanceError::InvalidTokenProgram)
    } else if voting_mint_key != timelock_set.voting_mint {
        Some(GovernanceError::InvalidInput)
    } else if yes_voting_mint_key != timelock_set.yes_voting_mint {
        Some(GovernanceError::InvalidInput)
    } else if no_voting_mint_key != timelock_set.no_voting_mint {
        Some(GovernanceError::InvalidInput)
    } else if governance_mint_key != timelock_config.governance_mint {
        Some(GovernanceError::InvalidInput)
    } else if timelock_config_key != timelock_set.config {
        Some(GovernanceError::InvalidInput)
    } else if timelock_set.state.status != TimelockStateStatus::Voting {
        Some(GovernanceError::InvalidProposalState)
    } else if !(pda_search_of(seq![timelock_program_key.bytes()], program_id.bytes())
        matches Some((k, _b)) && k == authority_key) {
        Some(GovernanceError::InvalidGovernanceKey)
    } else if spec_total_ever_existed(
        timelock_config,
        governance_mint,
        voting_mint,
        yes_mint,
        no_mint,
    ) > u64::MAX {
        Some(GovernanceError::NumericalOverflow)
    } else if spec_now_remaining_in_no_column(
        timelock_config,
        governance_mint,
        voting_mint,
        yes_voting_token_amount,
        no_voting_token_amount,
    ) < 0 || spec_now_remaining_in_no_column(
        timelock_config,
        governance_mint,
        voting_mint,
        yes_voting_token_amount,
        no_voting_token_amount,
    ) > u64::MAX {
        Some(GovernanceError::NumericalOverflow)
    } else if yes_voting_token_amount + no_voting_token_amount > u64::MAX {
        Some(GovernanceError::NumericalOverflow)
    } else {
        None
    }
}

/// Casts a vote on a timelock set.
///
/// Burns the voter's voting tokens, mints the yes and no tallies, and
/// evaluates the consensus rule over the tokens that could still vote
/// no; on tipping, the set moves to the execution phase.
pub fn process_vote(
    timelock_set: &TimelockSet,
    timelock_program: &TimelockProgram,
    timelock_config: &TimelockConfig,
    voting_mint_key: &Key,
    yes_voting_mint_key: &Key,
    no_voting_mint_key: &Key,
    governance_mint_key: &Key,
    timelock_config_key: &Key,
    token_program_key: &Key,
    program_id: &Key,
    timelock_program_key: &Key,
    authority_key: &Key,
    governance_mint: &MintData,
    voting_mint: &MintData,
    yes_mint: &MintData,
    no_mint: &MintData,
    yes_voting_token_amount: u64,
    no_voting_token_amount: u64,
) -> (r: Result<VoteResult, GovernanceError>)
    ensures
        spec_vote_error(
            *timelock_set,
            *timelock_program,
            *timelock_config,
            *voting_mint_key,
            *yes_voting_mint_key,
            *no_voting_mint_key,
            *governance_mint_key,
            *timelock_config_key,
            *token_program_key,
            *program_id,
            *timelock_program_key,
            *authority_key,
            *governance_mint,
            *voting_mint,
            *yes_mint,
            *no_mint,
            yes_voting_token_amount,
            no_voting_token_amount,
        ) matches Some(e) ==> r == Err::<VoteResult, GovernanceError>(e),
        spec_vote_error(
            *timelock_set,
            *timelock_program,
            *timelock_config,
            *voting_mint_key,
            *yes_voting_mint_key,
            *no_voting_mint_key,
            *governance_mint_key,
            *timelock_config_key,
            *token_program_key,
            *program_id,
            *timelock_program_key,
            *authority_key,
            *governance_mint,
            *voting_mint,
            *yes_mint,
            *no_mint,
            yes_voting_token_amount,
            no_voting_token_amount,
        ) is None ==> (r matches Ok(out) && {
            let total = spec_total_ever_existed(
                *timelock_config,
                *governance_mint,
                *voting_mint,
                *yes_mint,
                *no_mint,
            );
            let remaining = spec_now_remaining_in_no_column(
                *timelock_config,
                *governance_mint,
                *voting_mint,
                yes_voting_token_amount,
                no_voting_token_amount,
            );
            &&& out.burn_amount == yes_voting_token_amount + no_voting_token_amount
            &&& out.yes_mint_amount == yes_voting_token_amount
            &&& out.no_mint_amount == no_voting_token_amount
            &&& (out.tipped <==> (match timelock_config.consensus_algorithm {
                ConsensusAlgorithm::Majority => 2 * remaining < total,
                ConsensusAlgorithm::SuperMajority => 100 * remaining < 66 * total,
                ConsensusAlgorithm::FullConsensus => remaining == 0,
            }))
            &&& (out.tipped ==> out.timelock_set.state.status
                == TimelockStateStatus::AwaitingExecution)
            &&& (!out.tipped ==> out.timelock_set.state.status == timelock_set.state.status)
            &&& out.timelock_set.version == timelock_set.version
            &&& out.timelock_set.config == timelock_set.config
            &&& out.timelock_set.voting_mint == timelock_set.voting_mint
        }),
{
    if timelock_program.token_program_id != *token_program_key {
        return Err(GovernanceError::InvalidTokenProgram);
    }
    if *voting_mint_key != timelock_set.voting_mint {
        return Err(GovernanceError::InvalidInput);
    }
    if *yes_voting_mint_key != timelock_set.yes_voting_mint {
        return Err(GovernanceError::InvalidInput);
    }
    if *no_voting_mint_key != timelock_set.no_voting_mint {
        return Err(GovernanceError::InvalidInput);
    }
    if *governance_mint_key != timelock_config.governance_mint {
        return Err(GovernanceError::InvalidInput);
    }
    if *timelock_config_key != timelock_set.config {
        return Err(GovernanceError::InvalidInput);
    }
    if !(timelock_set.state.status == TimelockStateStatus::Voting) {
        return Err(GovernanceError::InvalidProposalState);
    }
    let authority_ok = match find_authority_bump_seed(program_id, timelock_program_key) {
        Some((key, _bump)) => key == *authority_key,
        None => false,
    };
    if !authority_ok {
        return Err(GovernanceError::InvalidGovernanceKey);
    }
    let total_ever_existed: u64 = match timelock_config.timelock_type {
        TimelockType::Governance => governance_mint.supply,
        TimelockType::Committee => {
            let sum = voting_mint.supply as u128 + yes_mint.supply as u128
                + no_mint.supply as u128;
            if sum > u64::MAX as u128 {
                return Err(GovernanceError::NumericalOverflow);
            }
            sum as u64
        },
    };
    let now_remaining_in_no_column: u64 = match timelock_config.timelock_type {
        TimelockType::Governance => {
            if governance_mint.supply < yes_voting_token_amount {
                return Err(GovernanceError::NumericalOverflow);
            }
            governance_mint.supply - yes_voting_token_amount
        },
        TimelockType::Committee => {
            let sum = voting_mint.supply as u128 + no_voting_token_amount as u128;
            if sum > u64::MAX as u128 {
                return Err(GovernanceError::NumericalOverflow);
            }
            sum as u64
        },
    };
    let burn_sum = yes_voting_token_amount as u128 + no_voting_token_amount as u128;
    if burn_sum > u64::MAX as u128 {
        return Err(GovernanceError::NumericalOverflow);
    }
    let burn_amount = burn_sum as u64;
    let tipped = evaluate_consensus(
        timelock_config.consensus_algorithm,
        now_remaining_in_no_column,
        total_ever_existed,
    );
    let mut new_set = TimelockSet {
        version: timelock_set.version,
        signatory_mint: timelock_set.signatory_mint,
        admin_mint: timelock_set.admin_mint,
        voting_mint: timelock_set.voting_mint,
        yes_voting_mint: timelock_set.yes_voting_mint,
        no_voting_mint: timelock_set.no_voting_mint,
        yes_voting_dump: timelock_set.yes_voting_dump,
        no_voting_dump: timelock_set.no_voting_dump,
        governance_holding: timelock_set.governance_holding,
        config: timelock_set.config,
        state: TimelockState {
            status: timelock_set.state.status,
            total_voting_tokens_minted: timelock_set.state.total_voting_tokens_minted,
            timelock_transactions: vstd::slice::slice_to_vec(
                timelock_set.state.timelock_transactions.as_slice(),
            ),
            cross_program_id: timelock_set.state.cross_program_id,
        },
    };
    if tipped {
        new_set.state.status = TimelockStateStatus::AwaitingExecution;
    }
    Ok(
        VoteResult {
            timelock_set: new_set,
            burn_amount,
            yes_mint_amount: yes_voting_token_amount,
            no_mint_amount: no_voting_token_amount,
            tipped,
        },
    )
}

/// What a voting-token withdrawal instructs the host to do once its
/// checks pass.
pub struct WithdrawVotingTokensResult {
    /// Remaining voting tokens to burn from the voter.
    pub burn_voting_amount: u64,
    /// Yes tally tokens to move to the yes dump account.
    pub yes_dump_amount: u64,
    /// No tally tokens to move to the no dump account.
    pub no_dump_amount: u64,
    /// Governance tokens to release from escrow back to the voter.
    pub total_reimbursement: u64,
}

/// The first error a voting-token withdrawal hits, if any.
pub open spec fn spec_withdraw_voting_tokens_error(
    timelock_set: TimelockSet,
    timelock_program: TimelockProgram,
    timelock_config: TimelockConfig,
    timelock_config_key: Key,
    yes_voting_dump_key: Key,
    no_voting_dump_key: Key,
    governance_holding_key: Key,
    voting_mint_key: Key,
    token_program_key: Key,
    program_id: Key,
    timelock_program_key: Key,
    authority_key: Key,
    voting_account: TokenAccountData,
    yes_voting_account: TokenAccountData,
    no_voting_account: TokenAccountData,
) -> Option<GovernanceError> {
    if timelock_program.token_program_id != token_program_key {
        Some(GovernanceError::InvalidTokenProgram)
    } else if timelock_config_key != timelock_set.config {
        Some(GovernanceError::InvalidInput)
    } else if yes_voting_dump_key != timelock_set.yes_voting_dump {
        Some(GovernanceError::InvalidInput)
    } else if no_voting_dump_key != timelock_set.no_voting_dump {
        Some(GovernanceError::InvalidInput)
    } else if governance_holding_key != timelock_set.governance_holding {
        Some(GovernanceError::InvalidInput)
    } else if voting_mint_key != timelock_set.voting_mint {
        Some(GovernanceError::InvalidInput)
    } else if timelock_config.timelock_type != TimelockType::Governance {
        Some(GovernanceError::InvalidProposalState)
    } else if !(pda_search_of(seq![timelock_program_key.bytes()], program_id.bytes())
        matches Some((k, _b)) && k == authority_key) {
        Some(GovernanceError::InvalidGovernanceKey)
    } else if voting_account.amount + yes_voting_account.amount + no_voting_account.amount
        > u64::MAX {
        Some(GovernanceError::NumericalOverflow)
    } else {
        None
    }
}

/// Withdraws a voter's escrowed governance tokens.
///
/// Only governance-type sets permit withdrawal.  The voter's remaining
/// voting tokens are burned, the yes and no tallies are parked in dump
/// accounts, and the full deposited amount is released from escrow.
pub fn process_withdraw_voting_tokens(
    timelock_set: &TimelockSet,
    timelock_program: &TimelockProgram,
    timelock_config: &TimelockConfig,
    timelock_config_key: &Key,
    yes_voting_dump_key: &Key,
    no_voting_dump_key: &Key,
    governance_holding_key: &Key,
    voting_mint_key: &Key,
    token_program_key: &Key,
    program_id: &Key,
    timelock_program_key: &Key,
    authority_key: &Key,
    voting_account: &TokenAccountData,
    yes_voting_account: &TokenAccountData,
    no_voting_account: &TokenAccountData,
) -> (r: Result<WithdrawVotingTokensResult, GovernanceError>)
    ensures
        spec_withdraw_voting_tokens_error(
            *timelock_set,
            *timelock_program,
            *timelock_config,
            *timelock_config_key,
            *yes_voting_dump_key,
            *no_voting_dump_key,
            *governance_holding_key,
            *voting_mint_key,
            *token_program_key,
            *program_id,
            *timelock_program_key,
            *authority_key,
            *voting_account,
            *yes_voting_account,
            *no_voting_account,
        ) matches Some(e) ==> r == Err::<WithdrawVotingTokensResult, GovernanceError>(e),
        spec_withdraw_voting_tokens_error(
            *timelock_set,
            *timelock_program,
            *timelock_config,
            *timelock_config_key,
            *yes_voting_dump_key,
            *no_voting_dump_key,
            *governance_holding_key,
            *voting_mint_key,
            *token_program_key,
            *program_id,
            *timelock_program_key,
            *authority_key,
            *voting_account,
            *yes_voting_account,
            *no_voting_account,
        ) is None ==> r == Ok::<WithdrawVotingTokensResult, GovernanceError>(
            WithdrawVotingTokensResult {
                burn_voting_amount: voting_account.amount,
                yes_dump_amount: yes_voting_account.amount,
                no_dump_amount: no_voting_account.amount,
                total_reimbursement: (voting_account.amount + yes_voting_account.amount
                    + no_voting_account.amount) as u64,
            },
        ),
{
    if timelock_program.token_program_id != *token_program_key {
        return Err(GovernanceError::InvalidTokenProgram);
    }
    if *timelock_config_key != timelock_set.config {
        return Err(GovernanceError::InvalidInput);
    }
    if *yes_voting_dump_key != timelock_set.yes_voting_dump {
        return Err(GovernanceError::InvalidInput);
    }
    if *no_voting_dump_key != timelock_set.no_voting_dump {
        return Err(GovernanceError::InvalidInput);
    }
    if *governance_holding_key != timelock_set.governance_holding {
        return Err(GovernanceError::InvalidInput);
    }
    if *voting_mint_key != timelock_set.voting_mint {
        return Err(GovernanceError::InvalidInput);
    }
    if !(timelock_config.timelock_type == TimelockType::Governance) {
        return Err(GovernanceError::InvalidProposalState);
    }
    let authority_ok = match find_authority_bump_seed(program_id, timelock_program_key) {
        Some((key, _bump)) => key == *authority_key,
        None => false,
    };
    if !authority_ok {
        return Err(GovernanceError::InvalidGovernanceKey);
    }
    let sum = voting_account.amount as u128 + yes_voting_account.amount as u128
        + no_voting_account.amount as u128;
    if sum > u64::MAX as u128 {
        return Err(GovernanceError::NumericalOverflow);
    }
    Ok(
        WithdrawVotingTokensResult {
            burn_voting_amount: voting_account.amount,
            yes_dump_amount: yes_voting_account.amount,
            no_dump_amount: no_voting_account.amount,
            total_reimbursement: sum as u64,
        },
    )
}

} // verus!
