//! Tests of the governance lifecycle: record creation, sign-off,
//! consensus tallying, gated execution, and the timelock vote handler.

use token_lending::authority::find_governance_address;
use token_lending::error::GovernanceError;
use token_lending::governance::{
    evaluate_consensus, process_create_governance, process_execute, ConsensusAlgorithm,
    CustomSingleSignerTransaction, Governance, GovernanceAccountType, Proposal, ProposalState,
    ProposalStateStatus,
};
use token_lending::keys::Key;
use token_lending::state::{MintData, TokenAccountData};
use token_lending::timelock::{
    assert_draft, assert_same_version_as_program, assert_token_program_is_correct, process_vote,
    process_withdraw_voting_tokens, TimelockConfig, TimelockProgram, TimelockSet, TimelockState,
    TimelockStateStatus, TimelockType, TIMELOCK_SET_VERSION, TIMELOCK_VERSION,
};

fn fresh_state() -> ProposalState {
    ProposalState {
        account_type: GovernanceAccountType::ProposalState,
        status: ProposalStateStatus::Draft,
        signatories_count: 0,
        signatories_signed_off_count: 0,
        voting_started_at: 0,
        voting_ended_at: 0,
        number_of_transactions: 1,
        number_of_executed_transactions: 0,
        transactions: vec![Key::new(0, 0); 10],
    }
}

#[test]
fn governance_record_created_and_round_tripped() {
    let program_id = Key::new(1, 0);
    let governed_program = Key::new(2, 0);
    let governance_mint = Key::new(3, 0);
    let (governance_key, _bump) =
        find_governance_address(&program_id, &governed_program).unwrap();
    // the derived address differs from every input key
    assert_ne!(governance_key, governed_program);
    assert_ne!(governance_key, program_id);

    let name = [7u8; 32];
    let out = process_create_governance(
        &program_id,
        &governance_key,
        &governed_program,
        true,
        &governance_mint,
        None,
        60,
        10,
        100,
        &name,
    )
    .unwrap();

    let governance = Governance::unpack(&out.governance).unwrap();
    assert_eq!(governance.vote_threshold, 60);
    assert_eq!(governance.minimum_slot_waiting_period, 10);
    assert_eq!(governance.time_limit, 100);
    assert_eq!(governance.name, vec![7u8; 32]);
    assert_eq!(governance.governance_mint, governance_mint);
    assert!(governance.council_mint.is_none());
    assert_eq!(governance.program, governed_program);
    assert_eq!(governance.count, 0);

    // a mismatched governance account is rejected
    assert!(matches!(
        process_create_governance(
            &program_id,
            &Key::new(9, 9),
            &governed_program,
            true,
            &governance_mint,
            None,
            60,
            10,
            100,
            &name,
        ),
        Err(GovernanceError::InvalidGovernanceKey)
    ));
    // without the upgrade authority's signature nothing is created
    assert!(matches!(
        process_create_governance(
            &program_id,
            &governance_key,
            &governed_program,
            false,
            &governance_mint,
            None,
            60,
            10,
            100,
            &name,
        ),
        Err(GovernanceError::InvalidInput)
    ));
}

#[test]
fn sign_off_moves_a_fully_signed_draft_to_voting() {
    let mut state = fresh_state();
    state.add_signatory().unwrap();
    state.add_signatory().unwrap();
    assert_eq!(state.signatories_count, 2);

    state.sign_off(50).unwrap();
    assert_eq!(state.status, ProposalStateStatus::Draft);
    state.sign_off(55).unwrap();
    assert_eq!(state.status, ProposalStateStatus::Voting);
    assert_eq!(state.voting_started_at, 55);
    // a third sign-off has nothing left to consume
    assert!(matches!(state.sign_off(56), Err(GovernanceError::InvalidProposalState)));
}

#[test]
fn consensus_rules_follow_their_thresholds() {
    // majority: 40 of 100 could still vote no, under half
    assert!(evaluate_consensus(ConsensusAlgorithm::Majority, 40, 100));
    assert!(!evaluate_consensus(ConsensusAlgorithm::Majority, 50, 100));
    // supermajority threshold is sixty-six hundredths, exactly at it fails
    assert!(evaluate_consensus(ConsensusAlgorithm::SuperMajority, 65, 100));
    assert!(!evaluate_consensus(ConsensusAlgorithm::SuperMajority, 66, 100));
    assert!(evaluate_consensus(ConsensusAlgorithm::FullConsensus, 0, 100));
    assert!(!evaluate_consensus(ConsensusAlgorithm::FullConsensus, 1, 100));
}

#[test]
fn tipped_vote_enters_execution() {
    let mut state = fresh_state();
    state.signatories_count = 1;
    state.status = ProposalStateStatus::Voting;
    state.voting_started_at = 60;
    let tipped = evaluate_consensus(ConsensusAlgorithm::Majority, 40, 100);
    state.apply_vote_outcome(tipped, 100, 61).unwrap();
    assert_eq!(state.status, ProposalStateStatus::Executing);
    assert_eq!(state.voting_ended_at, 61);
}

#[test]
fn untipped_vote_past_the_time_limit_is_defeated() {
    let mut state = fresh_state();
    state.status = ProposalStateStatus::Voting;
    state.voting_started_at = 60;
    state.apply_vote_outcome(false, 100, 161).unwrap();
    assert_eq!(state.status, ProposalStateStatus::Defeated);
}

fn executing_setup() -> (ProposalState, Proposal, CustomSingleSignerTransaction, Key, Key) {
    let state_key = Key::new(11, 0);
    let governance_key = Key::new(12, 0);
    let mut state = fresh_state();
    state.status = ProposalStateStatus::Executing;
    state.voting_ended_at = 61;
    let proposal = Proposal {
        account_type: GovernanceAccountType::Proposal,
        governance: governance_key,
        state: state_key,
        token_holding_account: Key::new(13, 0),
    };
    let transaction = CustomSingleSignerTransaction {
        account_type: GovernanceAccountType::CustomSingleSignerTransaction,
        delay_slots: 10,
        instruction: vec![1, 2, 3, 4, 5, 6, 7, 8],
        instruction_end_index: 3,
        executed: 0,
    };
    (state, proposal, transaction, state_key, governance_key)
}

#[test]
fn execute_before_the_delay_is_too_early() {
    let (state, proposal, transaction, state_key, governance_key) = executing_setup();
    // voting ended at 61 with a delay of 10: slot 70 is one short
    assert!(matches!(
        process_execute(&state, &proposal, &transaction, &state_key, &governance_key, 0, true, 70),
        Err(GovernanceError::TooEarlyToExecute)
    ));
}

#[test]
fn execute_after_the_delay_marks_the_transaction_done() {
    let (state, proposal, transaction, state_key, governance_key) = executing_setup();
    let out = process_execute(
        &state,
        &proposal,
        &transaction,
        &state_key,
        &governance_key,
        0,
        true,
        71,
    )
    .unwrap();
    assert_eq!(out.transaction.executed, 1);
    assert_eq!(out.proposal_state.number_of_executed_transactions, 1);
    // the single queued transaction was the last: the proposal completes
    assert_eq!(out.proposal_state.status, ProposalStateStatus::Completed);
    // only the bytes up to the inclusive end index are dispatched
    assert_eq!(out.instruction, vec![1, 2, 3, 4]);

    // a second attempt on the executed transaction is rejected
    assert!(matches!(
        process_execute(
            &state,
            &proposal,
            &out.transaction,
            &state_key,
            &governance_key,
            0,
            true,
            71,
        ),
        Err(GovernanceError::ProposalTransactionAlreadyExecuted)
    ));
}

fn timelock_setup() -> (TimelockSet, TimelockProgram, TimelockConfig) {
    let set = TimelockSet {
        version: TIMELOCK_SET_VERSION,
        signatory_mint: Key::new(20, 0),
        admin_mint: Key::new(21, 0),
        voting_mint: Key::new(22, 0),
        yes_voting_mint: Key::new(23, 0),
        no_voting_mint: Key::new(24, 0),
        yes_voting_dump: Key::new(25, 0),
        no_voting_dump: Key::new(26, 0),
        governance_holding: Key::new(27, 0),
        config: Key::new(28, 0),
        state: TimelockState {
            status: TimelockStateStatus::Voting,
            total_voting_tokens_minted: 100,
            timelock_transactions: vec![Key::new(0, 0); 10],
            cross_program_id: Key::new(29, 0),
        },
    };
    let program = TimelockProgram {
        version: TIMELOCK_VERSION,
        program_id: Key::new(30, 0),
        token_program_id: Key::new(31, 0),
    };
    let config = TimelockConfig {
        governance_mint: Key::new(32, 0),
        consensus_algorithm: ConsensusAlgorithm::Majority,
        timelock_type: TimelockType::Governance,
    };
    (set, program, config)
}

fn mint(supply: u64) -> MintData {
    MintData { supply, is_initialized: true }
}

fn holding(amount: u64) -> TokenAccountData {
    TokenAccountData {
        mint: Key::new(22, 0),
        owner: Key::new(1, 1),
        amount,
        has_delegate: false,
        has_close_authority: false,
        is_initialized: true,
    }
}

#[test]
fn sixty_percent_yes_tips_a_majority_vote() {
    let (set, program, config) = timelock_setup();
    let program_id = Key::new(40, 0);
    let program_key = Key::new(41, 0);
    let (authority, _bump) =
        token_lending::authority::find_authority_bump_seed(&program_id, &program_key).unwrap();
    let out = process_vote(
        &set,
        &program,
        &config,
        &set.voting_mint,
        &set.yes_voting_mint,
        &set.no_voting_mint,
        &config.governance_mint,
        &set.config,
        &program.token_program_id,
        &program_id,
        &program_key,
        &authority,
        &mint(100),
        &mint(40),
        &mint(0),
        &mint(0),
        60,
        0,
    )
    .unwrap();
    // 40 of 100 could still vote no: tipped, and the set awaits execution
    assert!(out.tipped);
    assert_eq!(out.timelock_set.state.status, TimelockStateStatus::AwaitingExecution);
    assert_eq!(out.burn_amount, 60);
    assert_eq!(out.yes_mint_amount, 60);
    assert_eq!(out.no_mint_amount, 0);
}

#[test]
fn half_yes_does_not_tip_a_majority_vote() {
    let (set, program, config) = timelock_setup();
    let program_id = Key::new(40, 0);
    let program_key = Key::new(41, 0);
    let (authority, _bump) =
        token_lending::authority::find_authority_bump_seed(&program_id, &program_key).unwrap();
    let out = process_vote(
        &set,
        &program,
        &config,
        &set.voting_mint,
        &set.yes_voting_mint,
        &set.no_voting_mint,
        &config.governance_mint,
        &set.config,
        &program.token_program_id,
        &program_id,
        &program_key,
        &authority,
        &mint(100),
        &mint(50),
        &mint(0),
        &mint(0),
        50,
        0,
    )
    .unwrap();
    assert!(!out.tipped);
    assert_eq!(out.timelock_set.state.status, TimelockStateStatus::Voting);
}

#[test]
fn withdrawal_reimburses_the_full_deposit() {
    let (set, program, config) = timelock_setup();
    let program_id = Key::new(40, 0);
    let program_key = Key::new(41, 0);
    let (authority, _bump) =
        token_lending::authority::find_authority_bump_seed(&program_id, &program_key).unwrap();
    let out = process_withdraw_voting_tokens(
        &set,
        &program,
        &config,
        &set.config,
        &set.yes_voting_dump,
        &set.no_voting_dump,
        &set.governance_holding,
        &set.voting_mint,
        &program.token_program_id,
        &program_id,
        &program_key,
        &authority,
        &holding(10),
        &holding(60),
        &holding(0),
    )
    .unwrap();
    assert_eq!(out.burn_voting_amount, 10);
    assert_eq!(out.yes_dump_amount, 60);
    assert_eq!(out.no_dump_amount, 0);
    assert_eq!(out.total_reimbursement, 70);
}

#[test]
fn timelock_assertions_check_their_fields() {
    let (mut set, program, _config) = timelock_setup();
    assert_eq!(assert_draft(&set), Err(GovernanceError::InvalidProposalState));
    set.state.status = TimelockStateStatus::Draft;
    assert_eq!(assert_draft(&set), Ok(()));
    assert_eq!(assert_token_program_is_correct(&program, &program.token_program_id), Ok(()));
    assert_eq!(
        assert_token_program_is_correct(&program, &Key::new(9, 9)),
        Err(GovernanceError::InvalidTokenProgram)
    );
    assert_eq!(assert_same_version_as_program(&program, &set), Ok(()));
}

#[test]
fn execute_guards_reject_bad_inputs() {
    let (state, proposal, transaction, state_key, governance_key) = executing_setup();
    // a slot before the end of voting cannot subtract
    assert!(matches!(
        process_execute(&state, &proposal, &transaction, &state_key, &governance_key, 0, true, 60),
        Err(GovernanceError::NumericalOverflow)
    ));
    // more extra accounts than an instruction may carry
    assert!(matches!(
        process_execute(&state, &proposal, &transaction, &state_key, &governance_key, 11, true, 71),
        Err(GovernanceError::TooManyAccountsInInstruction)
    ));
    // a missing governance authority account
    assert!(matches!(
        process_execute(&state, &proposal, &transaction, &state_key, &governance_key, 0, false, 71),
        Err(GovernanceError::InvalidGovernanceKey)
    ));
}

#[test]
fn vote_rejects_mismatched_accounts_and_overflow() {
    let (set, program, config) = timelock_setup();
    let program_id = Key::new(40, 0);
    let program_key = Key::new(41, 0);
    let (authority, _bump) =
        token_lending::authority::find_authority_bump_seed(&program_id, &program_key).unwrap();
    // a wrong voting mint account
    assert!(matches!(
        process_vote(
            &set,
            &program,
            &config,
            &Key::new(9, 9),
            &set.yes_voting_mint,
            &set.no_voting_mint,
            &config.governance_mint,
            &set.config,
            &program.token_program_id,
            &program_id,
            &program_key,
            &authority,
            &mint(100),
            &mint(0),
            &mint(0),
            &mint(0),
            1,
            0,
        ),
        Err(GovernanceError::InvalidInput)
    ));
    // more yes votes than the governance supply can cover
    assert!(matches!(
        process_vote(
            &set,
            &program,
            &config,
            &set.voting_mint,
            &set.yes_voting_mint,
            &set.no_voting_mint,
            &config.governance_mint,
            &set.config,
            &program.token_program_id,
            &program_id,
            &program_key,
            &authority,
            &mint(100),
            &mint(0),
            &mint(0),
            &mint(0),
            101,
            0,
        ),
        Err(GovernanceError::NumericalOverflow)
    ));
}

#[test]
fn version_mismatch_is_rejected() {
    let (set, mut program, _config) = timelock_setup();
    program.version = TIMELOCK_VERSION + 1;
    assert!(matches!(
        assert_same_version_as_program(&program, &set),
        Err(GovernanceError::InvalidVersion)
    ));
}
