//! Concrete cases of the recovery budgets, timing windows, protection history,
//! authorization deadlines and flow phases.
use oteryn_game_server::admission::{
    ControlLossEpochRefV1, ReconnectAttemptRef, ReconnectDurabilityErrorV1, RuntimeScopeRefV1,
};
use oteryn_game_server::budget::{
    RecoveryEpochStateV1, RecoveryProtectionContinuityV1, RecoveryProtectionRearmV1, RecoveryProtectionUseV1,
    RecoveryTimingV2, ReconnectAttemptBudgetV1, ReconnectAttemptReservationV1, ReconnectPrepareDispositionV1,
    RetainedRecoveryAttemptDispositionV1, RetainedRecoveryAttemptV1, RetainedRecoveryBudgetV1,
};
use oteryn_game_server::durability::{
    AuthenticatedTransportRefV1, AuthorityEvidenceFenceV1, Fnd02ReconciliationFenceV1, ProtectionEntitlementV1,
    ReconnectAuthorityFenceV1, ReconnectCompatibilityEvidenceV1, ReconnectConnectionFenceV1, ReconnectContinuityV1,
    ReconnectCurrentAuthorityV1, ReconnectDurabilityRecordV1, ReconnectIdentityV1, ReconnectProofV1,
};
use oteryn_game_server::flows::{
    ReconnectCommitActionV1, ReconnectCommitCompletionV1, ReconnectCommitDispositionV1, ReconnectDurabilityFlowV1, ReconnectDurabilityPhaseV1,
    ReconnectPrepareActionV1, ReconnectPrepareCompletionV1,
};
use oteryn_game_server::ids::{
    ChannelId, CharacterId, CommandId, ConnectionGeneration, GameSessionId, ScopeOwnershipGeneration, WorldId,
};

type Outcome = Result<(), ReconnectDurabilityErrorV1>;

fn invalid<E>(_: E) -> ReconnectDurabilityErrorV1 {
    ReconnectDurabilityErrorV1::InvalidRecord
}

fn attempt(raw: u64) -> Result<ReconnectAttemptRef, ReconnectDurabilityErrorV1> {
    ReconnectAttemptRef::new(raw).map_err(invalid)
}

fn transport(byte: u8) -> Result<AuthenticatedTransportRefV1, ReconnectDurabilityErrorV1> {
    AuthenticatedTransportRefV1::decode(&[byte; 16]).map_err(invalid)
}

fn uuid_v7(raw: u64) -> [u8; 16] {
    let mut out = [0u8; 16];
    out[8..].copy_from_slice(&raw.to_be_bytes());
    out[6] = 0x70;
    out[8] = (out[8] & 0x3f) | 0x80;
    out
}

/// A record whose deadlines and evidence times are the given ones.
fn record_with(
    prepared_deadline: i64,
    grace_deadline: i64,
    platform_at: i64,
    trust_at: i64,
    credential: Option<i64>,
) -> Result<ReconnectDurabilityRecordV1, ReconnectDurabilityErrorV1> {
    let world_id = WorldId::decode(&uuid_v7(12)).map_err(invalid)?;
    let channel_id = ChannelId::decode(&uuid_v7(13)).map_err(invalid)?;
    let identity = ReconnectIdentityV1::new(
        GameSessionId::decode(&uuid_v7(10)).map_err(invalid)?,
        attempt(4)?,
        "123e4567-e89b-12d3-a456-426614174000",
        CharacterId::decode(&uuid_v7(11)).map_err(invalid)?,
        world_id,
        RuntimeScopeRefV1::channel(world_id, channel_id),
    )?;
    let connection = ReconnectConnectionFenceV1::new(
        ConnectionGeneration::new(7).map_err(invalid)?,
        ConnectionGeneration::new(8).map_err(invalid)?,
        transport(4)?,
    )?;
    let authority = ReconnectAuthorityFenceV1::new(9, ScopeOwnershipGeneration::new(10).map_err(invalid)?)?;
    let continuity = ReconnectContinuityV1::new(
        ControlLossEpochRefV1::new(3)?,
        grace_deadline,
        prepared_deadline,
        ProtectionEntitlementV1::unused(),
    )?;
    let fnd02 = Fnd02ReconciliationFenceV1::new(CommandId::new(1).map_err(invalid)?, vec![], 0, vec![])?;
    let platform = AuthorityEvidenceFenceV1::new("platform-security", "reconnect", "account", "sec:1", "decision:sec:1", platform_at)?;
    let trust = AuthorityEvidenceFenceV1::new("proof-trust", "reconnect", "recovery-key", "trust:1", "decision:trust:1", trust_at)?;
    let compatibility = ReconnectCompatibilityEvidenceV1::new(
        1, 1, "rules:1", "content:1", "map:1", "world:1", 1, platform, trust, credential,
    )?;
    ReconnectDurabilityRecordV1::new(
        identity,
        connection,
        authority,
        continuity,
        ReconnectProofV1::FastReconnect { reconnect_proof_generation: 2 },
        fnd02,
        compatibility,
    )
}

#[test]
fn budget_refuses_a_second_prepared_attempt_and_foreign_completions() -> Outcome {
    let mut budget = ReconnectAttemptBudgetV1::new(ControlLossEpochRefV1::new(1)?);
    budget.reserve(attempt(1)?, transport(1)?)?;
    budget.reserve(attempt(2)?, transport(2)?)?;
    budget.accept_prepare_completion(attempt(1)?, transport(1)?, ReconnectPrepareDispositionV1::Prepared)?;
    assert_eq!(
        budget.accept_prepare_completion(attempt(2)?, transport(2)?, ReconnectPrepareDispositionV1::Prepared),
        Err(ReconnectDurabilityErrorV1::ConcurrentPrepared)
    );
    assert_eq!(
        budget.accept_prepare_completion(attempt(2)?, transport(2)?, ReconnectPrepareDispositionV1::ExistingPrepared),
        Err(ReconnectDurabilityErrorV1::ConcurrentPrepared)
    );
    assert_eq!(
        budget.accept_prepare_completion(attempt(3)?, transport(3)?, ReconnectPrepareDispositionV1::Prepared),
        Err(ReconnectDurabilityErrorV1::CompletionMismatch)
    );
    assert_eq!(
        budget.accept_prepare_completion(attempt(1)?, transport(9)?, ReconnectPrepareDispositionV1::Prepared),
        Err(ReconnectDurabilityErrorV1::IdempotencyConflict)
    );
    // The same attempt may report PREPARED again; it stays the only one.
    budget.accept_prepare_completion(attempt(1)?, transport(1)?, ReconnectPrepareDispositionV1::ExistingPrepared)?;
    // Once it is terminal, the other attempt may become PREPARED.
    budget.accept_prepare_completion(attempt(1)?, transport(1)?, ReconnectPrepareDispositionV1::RejectedStaleAuthority)?;
    budget.accept_prepare_completion(attempt(2)?, transport(2)?, ReconnectPrepareDispositionV1::Prepared)?;
    assert!(!budget.replacement_allowed_after_collision(attempt(1)?));
    Ok(())
}

#[test]
fn budget_unsettled_prepare_reports_leave_the_attempt_retryable() -> Outcome {
    let mut budget = ReconnectAttemptBudgetV1::new(ControlLossEpochRefV1::new(1)?);
    assert_eq!(budget.reserve(attempt(1)?, transport(1)?)?, ReconnectAttemptReservationV1::New);
    budget.accept_prepare_completion(attempt(1)?, transport(1)?, ReconnectPrepareDispositionV1::Unavailable)?;
    budget.accept_prepare_completion(attempt(1)?, transport(1)?, ReconnectPrepareDispositionV1::Ambiguous)?;
    assert_eq!(budget.reserve(attempt(1)?, transport(1)?)?, ReconnectAttemptReservationV1::Existing);
    assert_eq!(budget.distinct_attempts(), 1);
    assert_eq!(budget.control_loss_epoch(), ControlLossEpochRefV1::new(1)?);
    budget.accept_prepare_completion(attempt(1)?, transport(1)?, ReconnectPrepareDispositionV1::Prepared)?;
    Ok(())
}

fn retained(raw: u64, byte: u8, disposition: RetainedRecoveryAttemptDispositionV1) -> Result<RetainedRecoveryAttemptV1, ReconnectDurabilityErrorV1> {
    Ok(RetainedRecoveryAttemptV1 { attempt: attempt(raw)?, transport: transport(byte)?, disposition })
}

#[test]
fn retained_budget_restores_only_complete_consistent_history() -> Outcome {
    let epoch = ControlLossEpochRefV1::new(5)?;
    let committed = retained(1, 1, RetainedRecoveryAttemptDispositionV1::Committed)?;
    assert_eq!(
        RetainedRecoveryBudgetV1::restore(epoch, RecoveryEpochStateV1::Restored, false, vec![committed]).err(),
        Some(ReconnectDurabilityErrorV1::InvalidRecord)
    );
    assert_eq!(
        RetainedRecoveryBudgetV1::restore(epoch, RecoveryEpochStateV1::Open, true, vec![committed]).err(),
        Some(ReconnectDurabilityErrorV1::InvalidRecord)
    );
    let second = retained(2, 2, RetainedRecoveryAttemptDispositionV1::Committed)?;
    assert_eq!(
        RetainedRecoveryBudgetV1::restore(epoch, RecoveryEpochStateV1::Restored, true, vec![committed, second]).err(),
        Some(ReconnectDurabilityErrorV1::InvalidRecord)
    );
    let duplicate = retained(1, 3, RetainedRecoveryAttemptDispositionV1::Terminal)?;
    assert_eq!(
        RetainedRecoveryBudgetV1::restore(epoch, RecoveryEpochStateV1::Restored, true, vec![committed, duplicate]).err(),
        Some(ReconnectDurabilityErrorV1::InvalidRecord)
    );
    let mut nine = Vec::new();
    for raw in 1u64..=9 {
        nine.push(retained(raw, u8::try_from(raw).map_err(invalid)?, RetainedRecoveryAttemptDispositionV1::Terminal)?);
    }
    assert_eq!(
        RetainedRecoveryBudgetV1::restore(epoch, RecoveryEpochStateV1::Retired, true, nine).err(),
        Some(ReconnectDurabilityErrorV1::InvalidRecord)
    );
    let restored = RetainedRecoveryBudgetV1::restore(epoch, RecoveryEpochStateV1::Restored, true, vec![committed])?;
    assert_eq!(restored.epoch(), epoch);
    assert_eq!(restored.state(), RecoveryEpochStateV1::Restored);
    assert_eq!(restored.entries(), &[committed][..]);
    assert!(restored.has_committed_on(Some(transport(1)?)));
    assert!(!restored.has_committed_on(Some(transport(2)?)));
    assert!(!restored.has_committed_on(None));
    Ok(())
}

#[test]
fn retained_budget_spends_candidates_only_while_open() -> Outcome {
    let epoch = ControlLossEpochRefV1::new(6)?;
    let prepared = retained(1, 1, RetainedRecoveryAttemptDispositionV1::Prepared)?;
    let terminal = retained(2, 2, RetainedRecoveryAttemptDispositionV1::Terminal)?;
    let open = RetainedRecoveryBudgetV1::restore(epoch, RecoveryEpochStateV1::Open, true, vec![prepared, terminal])?;
    assert_eq!(open.check_candidate(attempt(1)?, transport(1)?), Ok(ReconnectAttemptReservationV1::Existing));
    assert_eq!(open.check_candidate(attempt(1)?, transport(7)?), Err(ReconnectDurabilityErrorV1::IdempotencyConflict));
    assert_eq!(open.check_candidate(attempt(2)?, transport(2)?), Err(ReconnectDurabilityErrorV1::StaleAuthority));
    assert_eq!(open.check_candidate(attempt(3)?, transport(3)?), Ok(ReconnectAttemptReservationV1::New));
    let retired = RetainedRecoveryBudgetV1::restore(epoch, RecoveryEpochStateV1::Retired, true, vec![prepared])?;
    assert_eq!(retired.check_candidate(attempt(1)?, transport(1)?), Err(ReconnectDurabilityErrorV1::StaleAuthority));
    assert_eq!(retired.check_candidate(attempt(3)?, transport(3)?), Err(ReconnectDurabilityErrorV1::StaleAuthority));
    let mut eight = Vec::new();
    for raw in 1u64..=8 {
        eight.push(retained(raw, u8::try_from(raw).map_err(invalid)?, RetainedRecoveryAttemptDispositionV1::Terminal)?);
    }
    let full = RetainedRecoveryBudgetV1::restore(epoch, RecoveryEpochStateV1::Open, true, eight)?;
    assert_eq!(full.check_candidate(attempt(9)?, transport(9)?), Err(ReconnectDurabilityErrorV1::AttemptCapacityExceeded));
    Ok(())
}

#[test]
fn recovery_timing_admits_exactly_its_window() -> Outcome {
    let same = RecoveryTimingV2::SameSession(ReconnectContinuityV1::new(
        ControlLossEpochRefV1::new(1)?,
        120,
        115,
        ProtectionEntitlementV1::unused(),
    )?);
    assert_eq!(same.validate_at(0), Ok(()));
    assert_eq!(same.validate_at(115), Ok(()));
    assert_eq!(same.validate_at(116), Err(ReconnectDurabilityErrorV1::StaleAuthority));
    assert_eq!(same.validate_at(-1), Err(ReconnectDurabilityErrorV1::StaleAuthority));
    let post = RecoveryTimingV2::TerminalSessionPostGrace { original_grace_deadline: 100, attempt_deadline: 110 };
    assert_eq!(post.validate_at(100), Err(ReconnectDurabilityErrorV1::StaleAuthority));
    assert_eq!(post.validate_at(101), Ok(()));
    assert_eq!(post.validate_at(110), Ok(()));
    assert_eq!(post.validate_at(111), Err(ReconnectDurabilityErrorV1::StaleAuthority));
    let inverted = RecoveryTimingV2::TerminalSessionPostGrace { original_grace_deadline: 100, attempt_deadline: 100 };
    assert_eq!(inverted.validate_at(100), Err(ReconnectDurabilityErrorV1::StaleAuthority));
    let unset = RecoveryTimingV2::TerminalSessionPostGrace { original_grace_deadline: 0, attempt_deadline: 10 };
    assert_eq!(unset.validate_at(5), Err(ReconnectDurabilityErrorV1::StaleAuthority));
    Ok(())
}

fn protection(usage: RecoveryProtectionUseV1, rearm: RecoveryProtectionRearmV1) -> RecoveryProtectionContinuityV1 {
    RecoveryProtectionContinuityV1 { usage, rearm }
}

#[test]
fn protection_history_activation_lasts_four_seconds_and_never_lies_ahead() {
    let not_rearmed = RecoveryProtectionRearmV1::NotRearmed { generation: 1, stable_control_started_at: None, accepted_deadline: None };
    let activated = |at: i64, deadline: i64| RecoveryProtectionUseV1::Activated { entitlement_generation: 1, activated_at: at, deadline };
    assert_eq!(protection(activated(10, 14), not_rearmed).validate(10), Ok(()));
    assert_eq!(protection(activated(10, 15), not_rearmed).validate(10), Err(ReconnectDurabilityErrorV1::InvalidRecord));
    assert_eq!(protection(activated(11, 15), not_rearmed).validate(10), Err(ReconnectDurabilityErrorV1::InvalidRecord));
    assert_eq!(protection(activated(-1, 3), not_rearmed).validate(10), Err(ReconnectDurabilityErrorV1::InvalidRecord));
    assert_eq!(
        protection(RecoveryProtectionUseV1::Unused { entitlement_generation: 0 }, not_rearmed).validate(10),
        Err(ReconnectDurabilityErrorV1::InvalidRecord)
    );
    assert_eq!(protection(RecoveryProtectionUseV1::NotEntitled, not_rearmed).validate(10), Ok(()));
    let half_open = RecoveryProtectionRearmV1::NotRearmed { generation: 1, stable_control_started_at: Some(5), accepted_deadline: None };
    assert_eq!(
        protection(RecoveryProtectionUseV1::NotEntitled, half_open).validate(10),
        Err(ReconnectDurabilityErrorV1::InvalidRecord)
    );
    let window = RecoveryProtectionRearmV1::NotRearmed { generation: 1, stable_control_started_at: Some(5), accepted_deadline: Some(9) };
    assert_eq!(protection(RecoveryProtectionUseV1::NotEntitled, window).validate(10), Ok(()));
    assert_eq!(protection(RecoveryProtectionUseV1::NotEntitled, window).validate(4), Err(ReconnectDurabilityErrorV1::InvalidRecord));
    let satisfied = RecoveryProtectionRearmV1::Satisfied { generation: 1, established_at: 3 };
    assert_eq!(protection(RecoveryProtectionUseV1::NotEntitled, satisfied).validate(3), Ok(()));
    assert_eq!(protection(RecoveryProtectionUseV1::NotEntitled, satisfied).validate(2), Err(ReconnectDurabilityErrorV1::InvalidRecord));
    let no_generation = RecoveryProtectionRearmV1::Satisfied { generation: 0, established_at: 3 };
    assert_eq!(protection(RecoveryProtectionUseV1::NotEntitled, no_generation).validate(3), Err(ReconnectDurabilityErrorV1::InvalidRecord));
}

#[test]
fn authorization_deadline_is_the_earliest_limit() -> Outcome {
    // Evidence freshness bounds the deadline to five seconds after observation.
    assert_eq!(record_with(200, 300, 100, 101, None)?.authorization_deadline(), Ok(105));
    assert_eq!(record_with(200, 300, 102, 101, None)?.authorization_deadline(), Ok(106));
    assert_eq!(record_with(103, 300, 100, 101, None)?.authorization_deadline(), Ok(103));
    assert_eq!(record_with(104, 104, 100, 101, None)?.authorization_deadline(), Ok(104));
    // A PREPARE deadline after the original grace deadline is no valid record.
    assert_eq!(record_with(200, 104, 100, 101, None).err(), Some(ReconnectDurabilityErrorV1::InvalidRecord));
    assert_eq!(record_with(200, 300, 100, 101, Some(102))?.authorization_deadline(), Ok(102));
    let record = record_with(200, 300, 100, 101, Some(150))?;
    assert_eq!(record.authorization_deadline(), Ok(105));
    assert!(record.evidence_observed_by(101));
    assert!(!record.evidence_observed_by(100));
    Ok(())
}

#[test]
fn finished_flow_takes_no_further_step() -> Outcome {
    let record = record_with(200, 300, 100, 101, None)?;
    let (mut flow, request) = ReconnectDurabilityFlowV1::begin(record);
    let terminal = ReconnectPrepareCompletionV1::for_request(&request, ReconnectPrepareDispositionV1::RejectedStaleAuthority);
    assert_eq!(
        flow.accept_prepare_completion(terminal)?,
        ReconnectPrepareActionV1::Terminal(ReconnectPrepareDispositionV1::RejectedStaleAuthority)
    );
    assert_eq!(flow.phase(), ReconnectDurabilityPhaseV1::Terminal);
    let again = ReconnectPrepareCompletionV1::for_request(&request, ReconnectPrepareDispositionV1::Prepared);
    assert_eq!(flow.accept_prepare_completion(again), Err(ReconnectDurabilityErrorV1::InvalidPhase));
    assert_eq!(flow.phase(), ReconnectDurabilityPhaseV1::Terminal);
    Ok(())
}

#[test]
fn prepare_completion_for_another_record_is_a_mismatch() -> Outcome {
    let (mut flow, _) = ReconnectDurabilityFlowV1::begin(record_with(200, 300, 100, 101, None)?);
    let (_, other) = ReconnectDurabilityFlowV1::begin(record_with(201, 300, 100, 101, None)?);
    let foreign = ReconnectPrepareCompletionV1::for_request(&other, ReconnectPrepareDispositionV1::Prepared);
    assert_eq!(flow.accept_prepare_completion(foreign), Err(ReconnectDurabilityErrorV1::CompletionMismatch));
    assert_eq!(flow.phase(), ReconnectDurabilityPhaseV1::PendingPrepare);
    Ok(())
}

#[test]
fn commit_is_authorized_and_accepted_only_in_its_phase_and_window() -> Outcome {
    let record = record_with(200, 300, 100, 101, None)?;
    let prepared_flow = |record: &ReconnectDurabilityRecordV1| -> Result<ReconnectDurabilityFlowV1, ReconnectDurabilityErrorV1> {
        let (mut flow, request) = ReconnectDurabilityFlowV1::begin(record.clone());
        flow.accept_prepare_completion(ReconnectPrepareCompletionV1::for_request(&request, ReconnectPrepareDispositionV1::Prepared))?;
        Ok(flow)
    };
    let mut flow = prepared_flow(&record)?;
    let commit = flow.authorize_commit(ReconnectCurrentAuthorityV1::from_record(&record, 102)?, 102)?;
    assert_eq!(commit.authorization().authorization_deadline(), 105);
    assert_eq!(flow.phase(), ReconnectDurabilityPhaseV1::PendingCommit);

    let mut waiting = prepared_flow(&record)?;
    assert_eq!(
        waiting.accept_commit_completion(ReconnectCommitCompletionV1::for_request(&commit, ReconnectCommitDispositionV1::Committed)),
        Err(ReconnectDurabilityErrorV1::InvalidPhase)
    );

    let mut late = prepared_flow(&record)?;
    assert_eq!(
        late.authorize_commit(ReconnectCurrentAuthorityV1::from_record(&record, 102)?, 106).err(),
        Some(ReconnectDurabilityErrorV1::DeadlineExpired)
    );
    assert_eq!(late.phase(), ReconnectDurabilityPhaseV1::Terminal);

    let mut unobserved = prepared_flow(&record)?;
    assert_eq!(
        unobserved.authorize_commit(ReconnectCurrentAuthorityV1::from_record(&record, 102)?, 100).err(),
        Some(ReconnectDurabilityErrorV1::StaleAuthority)
    );
    assert_eq!(unobserved.phase(), ReconnectDurabilityPhaseV1::Terminal);

    assert_eq!(
        flow.accept_commit_completion(ReconnectCommitCompletionV1::for_request(&commit, ReconnectCommitDispositionV1::Unavailable))?,
        ReconnectCommitActionV1::RetrySameRequest(commit.clone())
    );
    assert_eq!(flow.phase(), ReconnectDurabilityPhaseV1::PendingCommit);
    assert_eq!(
        flow.accept_commit_completion(ReconnectCommitCompletionV1::for_request(&commit, ReconnectCommitDispositionV1::Committed))?,
        ReconnectCommitActionV1::ReconcileSameAttempt
    );
    assert_eq!(flow.phase(), ReconnectDurabilityPhaseV1::ReconciliationRequired);
    Ok(())
}
