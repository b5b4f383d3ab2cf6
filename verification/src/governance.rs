//! Governance core: records, the proposal state machine, vote tallying
//! and gated execution.
//!
//! A governance record binds a guarded program to a voting mint and the
//! parameters of its proposal lifecycle.  Proposals move from draft to
//! voting when every signatory signs off, tip into execution when the
//! consensus rule becomes irrevocable, and complete when every queued
//! transaction has executed after its delay.

use vstd::prelude::*;
use vstd::bytes::{
    spec_u64_to_le_bytes, spec_u64_from_le_bytes, u64_from_le_bytes, u64_to_le_bytes,
    spec_u32_to_le_bytes, spec_u32_from_le_bytes, u32_from_le_bytes, u32_to_le_bytes,
};
use vstd::slice::{slice_subrange, slice_index_get, slice_to_vec};
use crate::authority::{find_governance_address, pda_search_of, spec_governance_seed};
use crate::error::GovernanceError;
use crate::keys::{Key, spec_key_of_bytes};

verus! {

/// Length of a governance record's fixed name region.
pub const GOVERNANCE_NAME_LENGTH: usize = 32;

/// Length of a proposal description link region.
pub const DESC_LINK_LENGTH: usize = 200;

/// Number of addressable transaction positions in a proposal.
pub const TRANSACTION_SLOTS: usize = 10;

/// Most accounts an execute instruction may carry, including the program
/// to invoke and the governance authority.
pub const MAX_ACCOUNTS_ALLOWED: usize = 12;

/// Tags of the persistent governance record types.
#[derive(Clone, Copy, PartialEq, Eq, Structural, Debug)]
pub enum GovernanceAccountType {
    /// Default uninitialized account state.
    Uninitialized,
    /// Governance configuration account.
    Governance,
    /// Proposal account under a governance.
    Proposal,
    /// Voting state of a proposal.
    ProposalState,
    /// Vote record of one voter on one proposal.
    VoteRecord,
    /// A queued single-signer transaction of a proposal.
    CustomSingleSignerTransaction,
}

/// What state a proposal is in.
#[derive(Clone, Copy, PartialEq, Eq, Structural, Debug)]
pub enum ProposalStateStatus {
    /// Draft.
    Draft,
    /// Taking votes.
    Voting,
    /// Votes complete, in execution phase.
    Executing,
    /// Completed.
    Completed,
    /// Deleted.
    Deleted,
    /// Defeated.
    Defeated,
}

impl Default for GovernanceAccountType {
    /// A fresh account is uninitialized.
    fn default() -> (r: Self)
        ensures
            r == GovernanceAccountType::Uninitialized,
    {
        GovernanceAccountType::Uninitialized
    }
}

impl Default for ProposalStateStatus {
    /// A fresh proposal is a draft.
    fn default() -> (r: Self)
        ensures
            r == ProposalStateStatus::Draft,
    {
        ProposalStateStatus::Draft
    }
}

/// The rule that decides when voting becomes irrevocable.
#[derive(Clone, Copy, PartialEq, Eq, Structural, Debug)]
pub enum ConsensusAlgorithm {
    /// Tipped when under half the supply could still vote no.
    Majority,
    /// Tipped when under two thirds (66 hundredths) could still vote no.
    SuperMajority,
    /// Tipped only when nothing could still vote no.
    FullConsensus,
}

/// Governance configuration record.
#[derive(Clone, Debug)]
pub struct Governance {
    /// Record type tag.
    pub account_type: GovernanceAccountType,
    /// The guarded program whose upgrade authority this governance holds.
    pub program: Key,
    /// Mint defining voting power.
    pub governance_mint: Key,
    /// Optional secondary mint for council voters.
    pub council_mint: Option<Key>,
    /// Vote threshold percent, 0 to 100.
    pub vote_threshold: u8,
    /// Slots between end of voting and earliest execution.
    pub minimum_slot_waiting_period: u64,
    /// Maximum slots a proposal may stay in voting before auto-defeat.
    pub time_limit: u64,
    /// Fixed-length byte label.
    pub name: Vec<u8>,
    /// Number of proposals created under this governance.
    pub count: u32,
}

/// Voting state of one proposal.
#[derive(Clone, Debug)]
pub struct ProposalState {
    /// Record type tag.
    pub account_type: GovernanceAccountType,
    /// Current lifecycle state.
    pub status: ProposalStateStatus,
    /// Number of signatories gating the draft.
    pub signatories_count: u8,
    /// Number of signatories that have signed off.
    pub signatories_signed_off_count: u8,
    /// Slot at which voting began, zero if unset.
    pub voting_started_at: u64,
    /// Slot at which voting ended, zero if unset.
    pub voting_ended_at: u64,
    /// Number of queued transactions.
    pub number_of_transactions: u8,
    /// Number of executed transactions.
    pub number_of_executed_transactions: u8,
    /// Addressable transaction positions; unused ones hold the zero key.
    pub transactions: Vec<Key>,
}

/// Proposal record, pointing at its governance and voting state.
#[derive(Clone, Debug)]
pub struct Proposal {
    /// Record type tag.
    pub account_type: GovernanceAccountType,
    /// Parent governance.
    pub governance: Key,
    /// The proposal's voting state record.
    pub state: Key,
    /// Escrow for source tokens deposited for voting.
    pub token_holding_account: Key,
}

/// One queued single-signer transaction of a proposal.
#[derive(Clone, Debug)]
pub struct CustomSingleSignerTransaction {
    /// Record type tag.
    pub account_type: GovernanceAccountType,
    /// Slots after voting ends before execution is permitted.
    pub delay_slots: u64,
    /// Opaque instruction bytes, carried through verbatim.
    pub instruction: Vec<u8>,
    /// Inclusive upper bound of valid bytes in `instruction`.
    pub instruction_end_index: u16,
    /// One once the transaction has executed.
    pub executed: u8,
}

/// Vote record of one voter on one proposal.
#[derive(Clone, Debug)]
pub struct VoteRecord {
    /// Record type tag.
    pub account_type: GovernanceAccountType,
    /// The proposal voted on.
    pub proposal: Key,
    /// The voter.
    pub owner: Key,
    /// Tokens voted yes.
    pub yes_amount: u64,
    /// Tokens voted no.
    pub no_amount: u64,
    /// Deposited tokens not yet consumed by a vote.
    pub undecided_amount: u64,
}

/// The byte encoding a record type tag.
pub open spec fn spec_account_type_byte(t: GovernanceAccountType) -> u8 {
    match t {
        GovernanceAccountType::Uninitialized => 0,
        GovernanceAccountType::Governance => 1,
        GovernanceAccountType::Proposal => 2,
        GovernanceAccountType::ProposalState => 3,
        GovernanceAccountType::VoteRecord => 4,
        GovernanceAccountType::CustomSingleSignerTransaction => 5,
    }
}

/// Packed length of a [`Governance`] record.
pub const GOVERNANCE_LEN: usize = 151;

/// The bytes that encode a governance record: tag, program, governance
/// mint, optional council mint, vote threshold, waiting period, time
/// limit, name, and proposal count.
pub open spec fn spec_governance_bytes(
    tag: u8,
    program: Key,
    governance_mint: Key,
    council_mint: Option<Key>,
    vote_threshold: u8,
    minimum_slot_waiting_period: u64,
    time_limit: u64,
    name: Seq<u8>,
    count: u32,
) -> Seq<u8> {
    seq![tag] + program.bytes() + governance_mint.bytes() + (match council_mint {
        Option::Some(k) => seq![1u8] + k.bytes(),
        Option::None => seq![0u8] + Seq::new(32, |i: int| 0u8),
    }) + seq![vote_threshold] + spec_u64_to_le_bytes(minimum_slot_waiting_period)
        + spec_u64_to_le_bytes(time_limit) + name + spec_u32_to_le_bytes(count)
}

/// The bytes a governance record packs to.
pub open spec fn spec_pack_governance(g: Governance) -> Seq<u8> {
    spec_governance_bytes(
        spec_account_type_byte(g.account_type),
        g.program,
        g.governance_mint,
        g.council_mint,
        g.vote_threshold,
        g.minimum_slot_waiting_period,
        g.time_limit,
        g.name@,
        g.count,
    )
}

impl Governance {
    /// A well-formed governance record carries a full-length name.
    pub open spec fn wf(self) -> bool {
        self.name@.len() == 32
    }

    /// Encodes the record as its 151-byte string.
    pub fn pack(&self) -> (r: Vec<u8>)
        requires
            self.wf(),
        ensures
            r@ == spec_pack_governance(*self),
            r@.len() == 151,
    {
        let mut out: Vec<u8> = Vec::new();
        out.push(match self.account_type {
            GovernanceAccountType::Uninitialized => 0,
            GovernanceAccountType::Governance => 1,
            GovernanceAccountType::Proposal => 2,
            GovernanceAccountType::ProposalState => 3,
            GovernanceAccountType::VoteRecord => 4,
            GovernanceAccountType::CustomSingleSignerTransaction => 5,
        });
        let mut b = self.program.to_bytes();
        out.append(&mut b);
        let mut b = self.governance_mint.to_bytes();
        out.append(&mut b);
        match &self.council_mint {
            Some(k) => {
                out.push(1);
                let mut b = k.to_bytes();
                out.append(&mut b);
            },
            None => {
                out.push(0);
                let mut zeros: Vec<u8> = vec![0u8; 32];
                out.append(&mut zeros);
            },
        }
        out.push(self.vote_threshold);
        let mut b = u64_to_le_bytes(self.minimum_slot_waiting_period);
        out.append(&mut b);
        let mut b = u64_to_le_bytes(self.time_limit);
        out.append(&mut b);
        let mut b = slice_to_vec(self.name.as_slice());
        out.append(&mut b);
        let mut b = u32_to_le_bytes(self.count);
        out.append(&mut b);
        proof {
            self.program.lemma_bytes();
            self.governance_mint.lemma_bytes();
            if let Some(k) = self.council_mint {
                k.lemma_bytes();
            }
            vstd::bytes::lemma_auto_spec_u64_to_from_le_bytes();
            vstd::bytes::lemma_auto_spec_u32_to_from_le_bytes();
            assert(out@ =~= spec_pack_governance(*self));
        }
        out
    }

    /// Decodes the record from a byte string.
    pub fn unpack(input: &[u8]) -> (r: Result<Self, GovernanceError>)
        ensures
            !(input@.len() == 151 && input@[0] == 1 && (input@[65] == 0 || input@[65] == 1))
                ==> r == Err::<Governance, GovernanceError>(GovernanceError::InvalidInput),
            input@.len() == 151 && input@[0] == 1 && (input@[65] == 0 || input@[65] == 1) ==> (
            r matches Ok(g) && {
                &&& g.account_type == GovernanceAccountType::Governance
                &&& g.program == spec_key_of_bytes(input@.subrange(1, 33))
                &&& g.governance_mint == spec_key_of_bytes(input@.subrange(33, 65))
                &&& g.council_mint == (if input@[65] == 1 {
                    Some(spec_key_of_bytes(input@.subrange(66, 98)))
                } else {
                    None::<Key>
                })
                &&& g.vote_threshold == input@[98]
                &&& g.minimum_slot_waiting_period == spec_u64_from_le_bytes(
                    input@.subrange(99, 107),
                )
                &&& g.time_limit == spec_u64_from_le_bytes(input@.subrange(107, 115))
                &&& g.name@ == input@.subrange(115, 147)
                &&& g.count == spec_u32_from_le_bytes(input@.subrange(147, 151))
                &&& g.wf()
            }),
    {
        if input.len() != GOVERNANCE_LEN {
            return Err(GovernanceError::InvalidInput);
        }
        let tag = *slice_index_get(input, 0);
        if tag != 1 {
            return Err(GovernanceError::InvalidInput);
        }
        let council_tag = *slice_index_get(input, 65);
        if council_tag != 0 && council_tag != 1 {
            return Err(GovernanceError::InvalidInput);
        }
        let council_mint: Option<Key> = if council_tag == 1 {
            Some(Key::from_bytes(slice_subrange(input, 66, 98)))
        } else {
            None
        };
        Ok(
            Governance {
                account_type: GovernanceAccountType::Governance,
                program: Key::from_bytes(slice_subrange(input, 1, 33)),
                governance_mint: Key::from_bytes(slice_subrange(input, 33, 65)),
                council_mint,
                vote_threshold: *slice_index_get(input, 98),
                minimum_slot_waiting_period: u64_from_le_bytes(slice_subrange(input, 99, 107)),
                time_limit: u64_from_le_bytes(slice_subrange(input, 107, 115)),
                name: slice_to_vec(slice_subrange(input, 115, 147)),
                count: u32_from_le_bytes(slice_subrange(input, 147, 151)),
            },
        )
    }
}

/// What a create-governance instruction produces once its checks pass.
pub struct CreateGovernanceResult {
    /// The packed governance record.
    pub governance: Vec<u8>,
    /// The bump seed that reaches the derived governance address, for the
    /// host's signed account creation.
    pub bump_seed: u8,
}

/// Creates a governance record bound to a guarded program.
///
/// The governance account's address must equal the address derived from
/// the fixed seed prefix and the guarded program's key, and the guarded
/// program's current upgrade authority must have signed the transaction
/// — the host verifies the signature against the loader's state and
/// reports it in `upgrade_authority_signed`.
pub fn process_create_governance(
    program_id: &Key,
    governance_account_key: &Key,
    governed_program: &Key,
    upgrade_authority_signed: bool,
    governance_mint: &Key,
    council_mint: Option<Key>,
    vote_threshold: u8,
    minimum_slot_waiting_period: u64,
    time_limit: u64,
    name: &[u8],
) -> (r: Result<CreateGovernanceResult, GovernanceError>)
    requires
        name@.len() == 32,
    ensures
        pda_search_of(
            seq![spec_governance_seed(), governed_program.bytes()],
            program_id.bytes(),
        ) is None ==> r == Err::<CreateGovernanceResult, GovernanceError>(
            GovernanceError::InvalidGovernanceKey,
        ),
        pda_search_of(
            seq![spec_governance_seed(), governed_program.bytes()],
            program_id.bytes(),
        ) matches Some((k, bump)) ==> {
            &&& k != *governance_account_key ==> r == Err::<
                CreateGovernanceResult,
                GovernanceError,
            >(GovernanceError::InvalidGovernanceKey)
            &&& k == *governance_account_key && !upgrade_authority_signed ==> r == Err::<
                CreateGovernanceResult,
                GovernanceError,
            >(GovernanceError::InvalidInput)
            &&& k == *governance_account_key && upgrade_authority_signed ==> (r matches Ok(out)
                && {
                &&& out.bump_seed == bump
                &&& out.governance@ == spec_governance_bytes(
                    1u8,
                    *governed_program,
                    *governance_mint,
                    council_mint,
                    vote_threshold,
                    minimum_slot_waiting_period,
                    time_limit,
                    name@,
                    0u32,
                )
            })
        },
{
    let (governance_key, bump_seed) = match find_governance_address(
        program_id,
        governed_program,
    ) {
        Some(pair) => pair,
        None => {
            return Err(GovernanceError::InvalidGovernanceKey);
        },
    };
    if governance_key != *governance_account_key {
        return Err(GovernanceError::InvalidGovernanceKey);
    }
    if !upgrade_authority_signed {
        return Err(GovernanceError::InvalidInput);
    }
    let governance = Governance {
        account_type: GovernanceAccountType::Governance,
        program: *governed_program,
        governance_mint: *governance_mint,
        council_mint,
        vote_threshold,
        minimum_slot_waiting_period,
        time_limit,
        name: slice_to_vec(name),
        count: 0,
    };
    Ok(CreateGovernanceResult { governance: governance.pack(), bump_seed })
}

impl ProposalState {
    /// A well-formed state carries the full vector of transaction
    /// positions.
    pub open spec fn wf(self) -> bool {
        self.transactions@.len() == 10
    }

    /// Admits a new signatory while the proposal is a draft.
    pub fn add_signatory(&mut self) -> (r: Result<(), GovernanceError>)
        ensures
            old(self).status != ProposalStateStatus::Draft ==> r == Err::<(), GovernanceError>(
                GovernanceError::InvalidProposalState,
            ) && *final(self) == *old(self),
            old(self).status == ProposalStateStatus::Draft
                && old(self).signatories_count == u8::MAX ==> r == Err::<(), GovernanceError>(
                GovernanceError::NumericalOverflow,
            ) && *final(self) == *old(self),
            old(self).status == ProposalStateStatus::Draft && old(self).signatories_count
                < u8::MAX ==> r == Ok::<(), GovernanceError>(()) && *final(self) == (
            ProposalState {
                signatories_count: (old(self).signatories_count + 1) as u8,
                ..*old(self)
            }),
    {
        if !(self.status == ProposalStateStatus::Draft) {
            return Err(GovernanceError::InvalidProposalState);
        }
        if self.signatories_count == u8::MAX {
            return Err(GovernanceError::NumericalOverflow);
        }
        self.signatories_count = self.signatories_count + 1;
        Ok(())
    }

    /// Removes a signatory while the proposal is a draft.
    pub fn remove_signatory(&mut self) -> (r: Result<(), GovernanceError>)
        ensures
            old(self).status != ProposalStateStatus::Draft ==> r == Err::<(), GovernanceError>(
                GovernanceError::InvalidProposalState,
            ) && *final(self) == *old(self),
            old(self).status == ProposalStateStatus::Draft && old(self).signatories_count == 0
                ==> r == Err::<(), GovernanceError>(GovernanceError::NumericalOverflow) && *final(self) == *old(self),
            old(self).status == ProposalStateStatus::Draft && old(self).signatories_count > 0
                ==> r == Ok::<(), GovernanceError>(()) && *final(self) == (ProposalState {
                signatories_count: (old(self).signatories_count - 1) as u8,
                ..*old(self)
            }),
    {
        if !(self.status == ProposalStateStatus::Draft) {
            return Err(GovernanceError::InvalidProposalState);
        }
        if self.signatories_count == 0 {
            return Err(GovernanceError::NumericalOverflow);
        }
        self.signatories_count = self.signatories_count - 1;
        Ok(())
    }

    /// Consumes one signatory sign-off; when every signatory has signed,
    /// the proposal enters voting at the current slot.
    pub fn sign_off(&mut self, slot: u64) -> (r: Result<(), GovernanceError>)
        ensures
            old(self).status != ProposalStateStatus::Draft ==> r == Err::<(), GovernanceError>(
                GovernanceError::InvalidProposalState,
            ) && *final(self) == *old(self),
            old(self).status == ProposalStateStatus::Draft
                && old(self).signatories_signed_off_count >= old(self).signatories_count ==> r
                == Err::<(), GovernanceError>(GovernanceError::InvalidProposalState) && *final(self) == *old(self),
            old(self).status == ProposalStateStatus::Draft
                && old(self).signatories_signed_off_count < old(self).signatories_count ==> {
                &&& r == Ok::<(), GovernanceError>(())
                &&& final(self).signatories_signed_off_count == old(self).signatories_signed_off_count + 1
                &&& (old(self).signatories_signed_off_count + 1 == old(self).signatories_count
                    ==> final(self).status == ProposalStateStatus::Voting && final(self).voting_started_at == slot)
                &&& (old(self).signatories_signed_off_count + 1 < old(self).signatories_count
                    ==> final(self).status == ProposalStateStatus::Draft && final(self).voting_started_at == old(self).voting_started_at)
                &&& final(self).signatories_count == old(self).signatories_count
                &&& final(self).voting_ended_at == old(self).voting_ended_at
                &&& final(self).number_of_transactions == old(self).number_of_transactions
                &&& final(self).number_of_executed_transactions == old(self).number_of_executed_transactions
                &&& final(self).transactions == old(self).transactions
                &&& final(self).account_type == old(self).account_type
            },
    {
        if !(self.status == ProposalStateStatus::Draft) {
            return Err(GovernanceError::InvalidProposalState);
        }
        if self.signatories_signed_off_count >= self.signatories_count {
            return Err(GovernanceError::InvalidProposalState);
        }
        self.signatories_signed_off_count = self.signatories_signed_off_count + 1;
        if self.signatories_signed_off_count == self.signatories_count {
            self.status = ProposalStateStatus::Voting;
            self.voting_started_at = slot;
        }
        Ok(())
    }
}

/// Whether the consensus rule has tipped: over the rationals,
/// `Majority` tips when `no_remaining / total < 1/2`, `SuperMajority`
/// when `no_remaining / total < 66/100`, and `FullConsensus` only at
/// zero.
pub fn evaluate_consensus(
    algorithm: ConsensusAlgorithm,
    no_tokens_remaining: u64,
    total_supply: u64,
) -> (r: bool)
    ensures
        algorithm == ConsensusAlgorithm::Majority ==> (r <==> 2 * no_tokens_remaining
            < total_supply),
        algorithm == ConsensusAlgorithm::SuperMajority ==> (r <==> 100 * no_tokens_remaining < 66
            * total_supply),
        algorithm == ConsensusAlgorithm::FullConsensus ==> (r <==> no_tokens_remaining == 0),
{
    match algorithm {
        ConsensusAlgorithm::Majority => {
            2 * (no_tokens_remaining as u128) < (total_supply as u128)
        },
        ConsensusAlgorithm::SuperMajority => {
            100 * (no_tokens_remaining as u128) < 66 * (total_supply as u128)
        },
        ConsensusAlgorithm::FullConsensus => no_tokens_remaining == 0,
    }
}

impl ProposalState {
    /// Applies the outcome of a vote: a tipped proposal enters execution
    /// at the current slot; an untipped one past its time limit is
    /// defeated.
    pub fn apply_vote_outcome(&mut self, tipped: bool, time_limit: u64, slot: u64) -> (r: Result<
        (),
        GovernanceError,
    >)
        ensures
            old(self).status != ProposalStateStatus::Voting ==> r == Err::<(), GovernanceError>(
                GovernanceError::InvalidProposalState,
            ) && *final(self) == *old(self),
            old(self).status == ProposalStateStatus::Voting && slot < old(self).voting_started_at ==> r == Err::<(), GovernanceError>(
                GovernanceError::NumericalOverflow,
            ) && *final(self) == *old(self),
            old(self).status == ProposalStateStatus::Voting && slot >= old(self).voting_started_at ==> {
                &&& r == Ok::<(), GovernanceError>(())
                &&& tipped ==> *final(self) == (ProposalState {
                    status: ProposalStateStatus::Executing,
                    voting_ended_at: slot,
                    ..*old(self)
                })
                &&& (!tipped && slot - old(self).voting_started_at > time_limit) ==> *final(self)
                    == (ProposalState { status: ProposalStateStatus::Defeated, ..*old(self) })
                &&& (!tipped && slot - old(self).voting_started_at <= time_limit) ==> *final(self) == *old(self)
            },
    {
        if !(self.status == ProposalStateStatus::Voting) {
            return Err(GovernanceError::InvalidProposalState);
        }
        if slot < self.voting_started_at {
            return Err(GovernanceError::NumericalOverflow);
        }
        if tipped {
            self.status = ProposalStateStatus::Executing;
            self.voting_ended_at = slot;
        } else if slot - self.voting_started_at > time_limit {
            self.status = ProposalStateStatus::Defeated;
        }
        Ok(())
    }
}

/// What an execute instructs the host to do once its guards pass.
pub struct ExecuteResult {
    /// The proposal state with the execution recorded.
    pub proposal_state: ProposalState,
    /// The transaction marked executed.
    pub transaction: CustomSingleSignerTransaction,
    /// The instruction bytes to dispatch under the governance authority.
    pub instruction: Vec<u8>,
}

/// The first error an execute instruction hits, if any, in the order the
/// instruction performs its guards.
pub open spec fn spec_execute_error(
    proposal_state: ProposalState,
    proposal: Proposal,
    transaction: CustomSingleSignerTransaction,
    proposal_state_key: Key,
    governance_key: Key,
    extra_account_count: usize,
    authority_present: bool,
    slot: u64,
) -> Option<GovernanceError> {
    if slot < proposal_state.voting_ended_at {
        Some(GovernanceError::NumericalOverflow)
    } else if slot - proposal_state.voting_ended_at < transaction.delay_slots {
        Some(GovernanceError::TooEarlyToExecute)
    } else if proposal.state != proposal_state_key {
        Some(GovernanceError::InvalidInput)
    } else if proposal.governance != governance_key {
        Some(GovernanceError::InvalidInput)
    } else if extra_account_count > 10 {
        Some(GovernanceError::TooManyAccountsInInstruction)
    } else if !authority_present {
        Some(GovernanceError::InvalidGovernanceKey)
    } else if proposal_state.status != ProposalStateStatus::Executing {
        Some(GovernanceError::InvalidProposalState)
    } else if transaction.executed == 1 {
        Some(GovernanceError::ProposalTransactionAlreadyExecuted)
    } else if transaction.instruction_end_index as int + 1 > transaction.instruction@.len() {
        Some(GovernanceError::InvalidInput)
    } else if proposal_state.number_of_executed_transactions == u8::MAX {
        Some(GovernanceError::NumericalOverflow)
    } else {
        None
    }
}

/// Executes one queued transaction of a proposal in execution.
///
/// The delay after the end of voting must have elapsed and the
/// transaction must not have run before.  On success the host dispatches
/// the returned instruction bytes under the governance's derived
/// authority; the transaction is marked executed, the execution count
/// advances, and the proposal completes when every transaction has run.
pub fn process_execute(
    proposal_state: &ProposalState,
    proposal: &Proposal,
    transaction: &CustomSingleSignerTransaction,
    proposal_state_key: &Key,
    governance_key: &Key,
    extra_account_count: usize,
    authority_present: bool,
    slot: u64,
) -> (r: Result<ExecuteResult, GovernanceError>)
    ensures
        spec_execute_error(
            *proposal_state,
            *proposal,
            *transaction,
            *proposal_state_key,
            *governance_key,
            extra_account_count,
            authority_present,
            slot,
        ) matches Some(e) ==> r == Err::<ExecuteResult, GovernanceError>(e),
        spec_execute_error(
            *proposal_state,
            *proposal,
            *transaction,
            *proposal_state_key,
            *governance_key,
            extra_account_count,
            authority_present,
            slot,
        ) is None ==> (r matches Ok(out) && {
            &&& out.transaction.executed == 1
            &&& out.transaction.account_type == transaction.account_type
            &&& out.transaction.delay_slots == transaction.delay_slots
            &&& out.transaction.instruction@ == transaction.instruction@
            &&& out.transaction.instruction_end_index == transaction.instruction_end_index
            &&& out.instruction@ == transaction.instruction@.subrange(
                0,
                transaction.instruction_end_index as int + 1,
            )
            &&& out.proposal_state.number_of_executed_transactions == proposal_state
                .number_of_executed_transactions + 1
            &&& (proposal_state.number_of_executed_transactions + 1
                == proposal_state.number_of_transactions ==> out.proposal_state.status
                == ProposalStateStatus::Completed)
            &&& (proposal_state.number_of_executed_transactions + 1
                != proposal_state.number_of_transactions ==> out.proposal_state.status
                == proposal_state.status)
            &&& out.proposal_state.signatories_count == proposal_state.signatories_count
            &&& out.proposal_state.signatories_signed_off_count == proposal_state
                .signatories_signed_off_count
            &&& out.proposal_state.voting_started_at == proposal_state.voting_started_at
            &&& out.proposal_state.voting_ended_at == proposal_state.voting_ended_at
            &&& out.proposal_state.number_of_transactions == proposal_state
                .number_of_transactions
            &&& out.proposal_state.transactions@ == proposal_state.transactions@
            &&& out.proposal_state.account_type == proposal_state.account_type
        }),
{
    if slot < proposal_state.voting_ended_at {
        return Err(GovernanceError::NumericalOverflow);
    }
    let time_elapsed = slot - proposal_state.voting_ended_at;
    if time_elapsed < transaction.delay_slots {
        return Err(GovernanceError::TooEarlyToExecute);
    }
    if proposal.state != *proposal_state_key {
        return Err(GovernanceError::InvalidInput);
    }
    if proposal.governance != *governance_key {
        return Err(GovernanceError::InvalidInput);
    }
    if extra_account_count > MAX_ACCOUNTS_ALLOWED - 2 {
        return Err(GovernanceError::TooManyAccountsInInstruction);
    }
    if !authority_present {
        return Err(GovernanceError::InvalidGovernanceKey);
    }
    if !(proposal_state.status == ProposalStateStatus::Executing) {
        return Err(GovernanceError::InvalidProposalState);
    }
    if transaction.executed == 1 {
        return Err(GovernanceError::ProposalTransactionAlreadyExecuted);
    }
    let end = transaction.instruction_end_index as usize;
    if end + 1 > transaction.instruction.len() {
        return Err(GovernanceError::InvalidInput);
    }
    if proposal_state.number_of_executed_transactions == u8::MAX {
        return Err(GovernanceError::NumericalOverflow);
    }
    let instruction = slice_to_vec(slice_subrange(transaction.instruction.as_slice(), 0, end + 1));
    let new_transaction = CustomSingleSignerTransaction {
        account_type: transaction.account_type,
        delay_slots: transaction.delay_slots,
        instruction: slice_to_vec(transaction.instruction.as_slice()),
        instruction_end_index: transaction.instruction_end_index,
        executed: 1,
    };
    let mut new_state = ProposalState {
        account_type: proposal_state.account_type,
        status: proposal_state.status,
        signatories_count: proposal_state.signatories_count,
        signatories_signed_off_count: proposal_state.signatories_signed_off_count,
        voting_started_at: proposal_state.voting_started_at,
        voting_ended_at: proposal_state.voting_ended_at,
        number_of_transactions: proposal_state.number_of_transactions,
        number_of_executed_transactions: proposal_state.number_of_executed_transactions + 1,
        transactions: slice_to_vec(proposal_state.transactions.as_slice()),
    };
    if new_state.number_of_executed_transactions == new_state.number_of_transactions {
        new_state.status = ProposalStateStatus::Completed;
    }
    Ok(ExecuteResult { proposal_state: new_state, transaction: new_transaction, instruction })
}

/// Creates a governance record from the earlier instruction form, which
/// also carried execution-type, governance-type and voting-entry-rule
/// selectors; every value of those selectors maps to the single default
/// behavior, so they are accepted and not stored.
pub fn process_init_governance(
    program_id: &Key,
    governance_account_key: &Key,
    governed_program: &Key,
    governance_mint: &Key,
    council_mint: Option<Key>,
    vote_threshold: u8,
    _execution_type: u8,
    _governance_type: u8,
    _voting_entry_rule: u8,
    minimum_slot_waiting_period: u64,
    time_limit: u64,
    name: &[u8],
) -> (r: Result<CreateGovernanceResult, GovernanceError>)
    requires
        name@.len() == 32,
    ensures
        pda_search_of(
            seq![spec_governance_seed(), governed_program.bytes()],
            program_id.bytes(),
        ) is None ==> r == Err::<CreateGovernanceResult, GovernanceError>(
            GovernanceError::InvalidGovernanceKey,
        ),
        pda_search_of(
            seq![spec_governance_seed(), governed_program.bytes()],
            program_id.bytes(),
        ) matches Some((k, bump)) ==> {
            &&& k != *governance_account_key ==> r == Err::<
                CreateGovernanceResult,
                GovernanceError,
            >(GovernanceError::InvalidGovernanceKey)
            &&& k == *governance_account_key ==> (r matches Ok(out) && {
                &&& out.bump_seed == bump
                &&& out.governance@ == spec_governance_bytes(
                    1u8,
                    *governed_program,
                    *governance_mint,
                    council_mint,
                    vote_threshold,
                    minimum_slot_waiting_period,
                    time_limit,
                    name@,
                    0u32,
                )
            })
        },
{
    // the earlier instruction form predates the upgrade-authority gate
    process_create_governance(
        program_id,
        governance_account_key,
        governed_program,
        true,
        governance_mint,
        council_mint,
        vote_threshold,
        minimum_slot_waiting_period,
        time_limit,
        name,
    )
}

} // verus!
