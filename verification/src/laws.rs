//! Properties of the admission authority that span several operations or hold
//! for every outcome the journal may report.
use vstd::prelude::*;
use crate::admission::{
    lemma_replay_key_view, replay_key_encoding, spec_commit_fresh, spec_commit_reconnect,
    spec_install_rehydrated, spec_mark_control_loss, spec_observe_runtime, spec_prepare_reconnect,
    spec_reconcile_known, spec_terminate, AdmissionError, AuthorityView, ControlLossDisposition,
    FreshAdmissionAuthoritySnapshotView, FreshAdmissionFactsView, FreshAdmissionReplayKey,
    GameSessionAuthoritySnapshotView, GameSessionState, GameSessionView, ReconnectAttemptClaim,
    ReconnectAttemptDisposition, ReconnectAttemptRef, FRESH_ADMISSION_REPLAY_KEY_TAG,
};
use crate::bytes::{u64_be_bytes, u64_from_be};
use crate::durability::{
    authorization_deadline_of, evidence_observed_by, exact_current_view, matches_record_result,
    ReconnectDurabilityRecordView, EVIDENCE_FRESHNESS_SECONDS_V1,
};
use crate::text::canonical_uuid_text;
use crate::facade::{
    spec_facade_commit, spec_facade_prepare, spec_reconcile_current, spec_validate_atomic, FacadePrepareAnswers,
    ReconnectAttemptAuthoritySnapshotView,
};
use crate::ids::{ConnectionGeneration, GameSessionId};
use crate::admission::{commit_binding, commit_fresh_requests, commit_requests, JournalRequest};
use crate::facade::facade_commit_fresh_requests;

verus! {

broadcast use crate::ids::group_id_views;

/// A reconnect attempt key read back from its durable bytes is the same key.
pub proof fn law_attempt_ref_encoding_round_trips(a: ReconnectAttemptRef)
    ensures
        u64_be_bytes(a@).len() == 8,
        u64_from_be(u64_be_bytes(a@)) == a@,
{
    crate::bytes::lemma_u64_be_roundtrip(a@);
}

/// The durable encoding of a replay key is the tag byte followed by exactly the
/// 32 nonce bytes, so decoding it gives back the same nonce.
pub proof fn law_replay_key_encoding_round_trips(k: FreshAdmissionReplayKey)
    ensures
        replay_key_encoding(k@).len() == 33,
        replay_key_encoding(k@)[0] == FRESH_ADMISSION_REPLAY_KEY_TAG,
        replay_key_encoding(k@).subrange(1, 33) == k@,
{
    lemma_replay_key_view(k, k);
    assert(replay_key_encoding(k@).subrange(1, 33) =~= k@);
}

/// While a session is live (not terminal), fresh admission never replaces it,
/// whatever the journal would answer.
pub proof fn law_fresh_admission_never_replaces_live_session<T, J>(
    v: AuthorityView<T, J>,
    facts: FreshAdmissionFactsView,
    transport: T,
    retired: Result<(), AdmissionError>,
    fresh: Result<FreshAdmissionAuthoritySnapshotView<T>, AdmissionError>,
)
    requires
        v.current matches Some(s) && s.state != GameSessionState::Terminal,
    ensures
        spec_commit_fresh(v, facts, transport, retired, fresh) == (v, Err::<GameSessionView, AdmissionError>(AdmissionError::IncumbentHealthy)),
{
}

/// A healthy controller cannot be preempted: PREPARE of an attempt the
/// journal has never seen is refused while the session is `Active`, and
/// nothing changes.
pub proof fn law_healthy_binding_cannot_be_preempted<T, J>(
    v: AuthorityView<T, J>,
    attempt: ReconnectAttemptRef,
    predecessor: ConnectionGeneration,
    transport: T,
    lease: u64,
    scope: u64,
    retired: Result<ReconnectAttemptDisposition, AdmissionError>,
    claimed: Result<ReconnectAttemptClaim, AdmissionError>,
)
    requires
        v.current matches Some(s) && s.state == GameSessionState::Active,
        v.prepared is None,
        v.control_loss_pending is None,
        !v.runtime_scope_reconciliation_pending,
    ensures
        spec_prepare_reconnect(v, attempt, predecessor, transport, lease, scope, Ok(None), retired, claimed)
            == (v, Err::<ConnectionGeneration, AdmissionError>(AdmissionError::IncumbentHealthy)),
{
}

/// PREPARE grants no authority: whatever the journal answers, the controller
/// and the connection generation stay as they were, unless the whole
/// projection is dropped for reconstruction.
pub proof fn law_prepare_grants_no_authority<T, J>(
    v: AuthorityView<T, J>,
    attempt: ReconnectAttemptRef,
    predecessor: ConnectionGeneration,
    transport: T,
    lease: u64,
    scope: u64,
    looked_up: Result<Option<ReconnectAttemptDisposition>, AdmissionError>,
    retired: Result<ReconnectAttemptDisposition, AdmissionError>,
    claimed: Result<ReconnectAttemptClaim, AdmissionError>,
)
    ensures
        ({
            let (post, _) = spec_prepare_reconnect(v, attempt, predecessor, transport, lease, scope, looked_up, retired, claimed);
            ||| (post.current == v.current && post.current_transport == v.current_transport)
            ||| post == v.cleared()
        }),
{
}

/// A successful COMMIT installs exactly the successor of the fenced
/// predecessor on the candidate transport; the predecessor generation is no
/// longer the current one.
pub proof fn law_commit_installs_strict_successor<T, J>(
    v: AuthorityView<T, J>,
    attempt: ReconnectAttemptRef,
    transport: T,
    lease: u64,
    scope: u64,
    looked_up: Result<Option<ReconnectAttemptDisposition>, AdmissionError>,
    committed: Result<(), AdmissionError>,
)
    requires
        v.prepared is Some,
        spec_commit_reconnect(v, attempt, transport, lease, scope, looked_up, committed).1 is Ok,
    ensures
        ({
            let (post, r) = spec_commit_reconnect(v, attempt, transport, lease, scope, looked_up, committed);
            let p = v.prepared.unwrap();
            &&& v.current is Some
            &&& p.attempt == attempt
            &&& r == Ok::<ConnectionGeneration, AdmissionError>(p.candidate)
            &&& p.candidate@ == p.predecessor@ + 1
            &&& v.current.unwrap().connection_generation == p.predecessor
            &&& post.current.unwrap().connection_generation == p.candidate
            &&& post.current.unwrap().connection_generation != p.predecessor
            &&& post.current.unwrap().state == GameSessionState::Active
            &&& post.current_transport == Some(transport)
            &&& post.prepared is None
        }) || ({
            let (post, r) = spec_commit_reconnect(v, attempt, transport, lease, scope, looked_up, committed);
            let p = v.prepared.unwrap();
            &&& p.attempt != attempt
            &&& post == v
            &&& looked_up matches Ok(Some(ReconnectAttemptDisposition::Committed { generation }))
            &&& r == Ok::<ConnectionGeneration, AdmissionError>(generation)
            &&& v.current.unwrap().connection_generation == generation
            &&& v.current_transport == Some(transport)
        }),
{
}

/// Control loss reported for anything but the exact current transport and
/// generation is ignored and changes nothing.
pub proof fn law_stale_control_loss_is_ignored<T, J>(
    v: AuthorityView<T, J>,
    observed_transport: T,
    observed_generation: ConnectionGeneration,
    marked: Result<ControlLossDisposition, AdmissionError>,
)
    requires
        v.current matches Some(s) && s.state != GameSessionState::Terminal && (v.current_transport
            != Some(observed_transport) || s.connection_generation != observed_generation),
        v.control_loss_pending is None,
    ensures
        spec_mark_control_loss(v, observed_transport, observed_generation, marked) == (
            v,
            Ok::<ControlLossDisposition, AdmissionError>(ControlLossDisposition::StaleIgnored),
        ),
{
}

/// The local RuntimeScope ownership generation never moves backwards,
/// whatever the journal answers.
pub proof fn law_runtime_generation_never_decreases<T, J>(
    v: AuthorityView<T, J>,
    generation: u64,
    advanced: Result<crate::ids::ScopeOwnershipGeneration, AdmissionError>,
)
    requires
        v.current is Some,
    ensures
        ({
            let (post, _) = spec_observe_runtime(v, generation, advanced);
            &&& post.current is Some
            &&& post.current.unwrap().runtime_scope.generation@ >= v.current.unwrap().runtime_scope.generation@
        }),
{
}

/// A terminal session refuses every later reconnect, control-loss and fresh
/// replay of its own commit: nothing can bring it back.
pub proof fn law_terminal_session_stays_terminal<T, J>(
    v: AuthorityView<T, J>,
    attempt: ReconnectAttemptRef,
    predecessor: ConnectionGeneration,
    transport: T,
    lease: u64,
    scope: u64,
    looked_up: Result<Option<ReconnectAttemptDisposition>, AdmissionError>,
    retired: Result<ReconnectAttemptDisposition, AdmissionError>,
    claimed: Result<ReconnectAttemptClaim, AdmissionError>,
    committed: Result<(), AdmissionError>,
    marked: Result<ControlLossDisposition, AdmissionError>,
    observed_generation: ConnectionGeneration,
)
    requires
        v.current matches Some(s) && s.state == GameSessionState::Terminal,
        v.prepared is None,
        v.control_loss_pending is None,
        !v.runtime_scope_reconciliation_pending,
    ensures
        spec_prepare_reconnect(v, attempt, predecessor, transport, lease, scope, looked_up, retired, claimed)
            == (v, Err::<ConnectionGeneration, AdmissionError>(AdmissionError::Terminal)),
        spec_commit_reconnect(v, attempt, transport, lease, scope, looked_up, committed)
            == (v, Err::<ConnectionGeneration, AdmissionError>(AdmissionError::Terminal)),
        spec_mark_control_loss(v, transport, observed_generation, marked)
            == (v, Err::<ControlLossDisposition, AdmissionError>(AdmissionError::Terminal)),
{
}

/// Termination that the journal confirmed, or whose outcome it cannot tell,
/// leaves the session terminal with no controller and nothing prepared.
pub proof fn law_termination_fences_the_session<T, J>(v: AuthorityView<T, J>, terminated: Result<(), AdmissionError>)
    requires
        v.current is Some,
        terminated is Ok || terminated == Err::<(), AdmissionError>(AdmissionError::ReconciliationUnavailable),
    ensures
        ({
            let (post, _) = spec_terminate(v, terminated);
            &&& post.current.unwrap().state == GameSessionState::Terminal
            &&& post.current_transport is None
            &&& post.prepared is None
        }),
{
}

/// A committed attempt replayed after a newer controller took over is
/// refused: success is only ever reported for the current transport and
/// generation.
pub proof fn law_committed_replay_requires_current_binding<T, J>(
    v: AuthorityView<T, J>,
    d: ReconnectAttemptDisposition,
    transport: T,
)
    requires
        spec_reconcile_known(v, d, transport) is Ok,
    ensures
        d matches ReconnectAttemptDisposition::Committed { generation } && v.current.unwrap().connection_generation
            == generation && v.current_transport == Some(transport) && spec_reconcile_known(v, d, transport)
            == Ok::<ConnectionGeneration, AdmissionError>(generation),
{
}

/// Rehydration never treats a session identifier as proof: a snapshot of
/// another session is refused and installs nothing.
pub proof fn law_rehydration_requires_matching_authority<T, J>(
    v: AuthorityView<T, J>,
    game_session_id: GameSessionId,
    snap: GameSessionAuthoritySnapshotView<T>,
)
    requires
        snap.commit.game_session_id != game_session_id,
    ensures
        spec_install_rehydrated(v, game_session_id, snap).0 == v,
        spec_install_rehydrated(v, game_session_id, snap).1 is Err,
{
}

/// The authorization deadline of a reconnect record is the earliest of its
/// PREPARE deadline, its original grace deadline, the freshness limits of
/// both pieces of authenticated evidence, and the credential's expiry.
pub proof fn law_authorization_deadline_is_earliest_limit(r: ReconnectDurabilityRecordView)
    requires
        authorization_deadline_of(r) is Some,
    ensures
        ({
            let d = authorization_deadline_of(r)->Some_0 as int;
            let platform = r.compatibility.platform_security_evidence.source_observed_at + EVIDENCE_FRESHNESS_SECONDS_V1;
            let trust = r.compatibility.proof_trust_evidence.source_observed_at + EVIDENCE_FRESHNESS_SECONDS_V1;
            &&& d <= r.continuity@.prepared_deadline
            &&& d <= r.continuity@.original_grace_deadline
            &&& d <= platform
            &&& d <= trust
            &&& (r.compatibility.credential_expiration matches Some(c) ==> d <= c)
            &&& (d == r.continuity@.prepared_deadline || d == r.continuity@.original_grace_deadline || d == platform
                || d == trust || r.compatibility.credential_expiration == Some(d as i64))
        }),
{
}

/// A stable COMMITTED outcome alone proves nothing: an atomic read is
/// accepted only for the expected session whose current lease is the one it
/// committed, whose runtime and connection generations have not gone back,
/// and whose lifecycle agrees with its controller.
pub proof fn law_atomic_read_requires_current_authority<T>(
    expected: GameSessionId,
    a: ReconnectAttemptAuthoritySnapshotView<T>,
)
    requires
        spec_validate_atomic(expected, a) is Ok,
    ensures
        a.session.commit.game_session_id == expected,
        a.session.current_character_lease@.character_id == a.session.commit.character_id,
        a.session.current_character_lease@.generation == a.session.commit.character_lease_generation,
        a.session.current_scope_generation@ >= a.session.commit.scope_ownership_generation,
        a.session.current_connection_generation@ >= a.session.commit.connection_generation@,
        (a.session.session_state == GameSessionState::Active && a.session.current_transport is Some) || (
        a.session.session_state == GameSessionState::Reconnectable && a.session.current_transport is None),
{
}

/// When the atomic read fails, the process projection is dropped and the
/// failure is reported: PREPARE and COMMIT then proceed on nothing.
pub proof fn law_failed_read_drops_projection<T, J>(
    v: AuthorityView<T, J>,
    attempt: ReconnectAttemptRef,
    predecessor: ConnectionGeneration,
    transport: T,
    lease: u64,
    scope: u64,
    ans: FacadePrepareAnswers<T>,
    looked_up: Result<Option<ReconnectAttemptDisposition>, AdmissionError>,
    committed: Result<(), AdmissionError>,
    e: AdmissionError,
)
    requires
        v.current is Some,
        ans.read == Err::<ReconnectAttemptAuthoritySnapshotView<T>, AdmissionError>(e),
    ensures
        spec_facade_prepare(v, attempt, predecessor, transport, lease, scope, ans) == (
            v.cleared(),
            Err::<ConnectionGeneration, AdmissionError>(e),
        ),
        spec_facade_commit(v, attempt, transport, lease, scope, ans.read, looked_up, committed) == (
            v.cleared(),
            Err::<ConnectionGeneration, AdmissionError>(e),
        ),
{
}

/// A PREPARED attempt is restored into the process only from an atomic read
/// whose stored binding is for the very candidate transport and generation,
/// on a reconnectable session with no controller.
pub proof fn law_prepared_restored_only_from_exact_binding<T, J>(
    v: AuthorityView<T, J>,
    attempt: ReconnectAttemptRef,
    transport: T,
    read: Result<ReconnectAttemptAuthoritySnapshotView<T>, AdmissionError>,
)
    requires
        spec_reconcile_current(v, attempt, transport, read).1 matches Ok(Some(ReconnectAttemptDisposition::Prepared { .. })),
    ensures
        ({
            let g = spec_reconcile_current(v, attempt, transport, read).1->Ok_0->Some_0->candidate_generation;
            &&& read matches Ok(a) && a.binding matches Some(b) && b.candidate_transport == transport
                && b.candidate_generation == g && a.session.session_state == GameSessionState::Reconnectable
                && a.session.current_transport is None && a.session.current_connection_generation
                == b.predecessor_generation
        }),
{
}

/// COMMIT of an attempt that the durable read does not show as prepared or
/// committed is refused.
pub proof fn law_commit_requires_known_attempt<T, J>(
    v: AuthorityView<T, J>,
    attempt: ReconnectAttemptRef,
    transport: T,
    lease: u64,
    scope: u64,
    read: Result<ReconnectAttemptAuthoritySnapshotView<T>, AdmissionError>,
    looked_up: Result<Option<ReconnectAttemptDisposition>, AdmissionError>,
    committed: Result<(), AdmissionError>,
)
    requires
        spec_reconcile_current(v, attempt, transport, read).1 == Ok::<Option<ReconnectAttemptDisposition>, AdmissionError>(None),
    ensures
        spec_facade_commit(v, attempt, transport, lease, scope, read, looked_up, committed).1 == Err::<
            ConnectionGeneration,
            AdmissionError,
        >(AdmissionError::AttemptMismatch),
{
}

/// The current authority read back from a well-formed record confirms that
/// record, at any time from when its evidence was observed up to its PREPARE
/// deadline.
pub proof fn law_record_confirmed_by_its_exact_authority(r: ReconnectDurabilityRecordView, observed_at: i64)
    requires
        canonical_uuid_text(r.identity.account_id),
        evidence_observed_by(r, observed_at),
        0 <= observed_at <= r.continuity@.prepared_deadline,
        r.continuity@.prepared_deadline > 0,
    ensures
        matches_record_result(r, exact_current_view(r, observed_at)) == Ok::<bool, crate::admission::ReconnectDurabilityErrorV1>(true),
{
    crate::durability::lemma_binding_of_view(crate::durability::expected_binding_view(r));
}

/// Fresh admission installs only the session its grant committed, at
/// connection generation one, on the admitting transport, and only while the
/// fenced authority still shows that session active and unchanged: a session
/// that since became reconnectable or terminal, or moved to a newer
/// generation, is never revived or rolled back by replaying the grant.
pub proof fn law_fresh_admission_installs_only_the_unchanged_commit<T, J>(
    v: AuthorityView<T, J>,
    facts: FreshAdmissionFactsView,
    transport: T,
    retired: Result<(), AdmissionError>,
    fresh: Result<FreshAdmissionAuthoritySnapshotView<T>, AdmissionError>,
)
    requires
        spec_commit_fresh(v, facts, transport, retired, fresh).1 is Ok,
    ensures
        ({
            let (post, r) = spec_commit_fresh(v, facts, transport, retired, fresh);
            let session = r->Ok_0;
            &&& fresh matches Ok(snap) && snap.session_state == GameSessionState::Active
                && snap.current_connection_generation == snap.commit.connection_generation
                && snap.current_transport == Some(transport) && snap.commit.initial_transport == transport
                && session.game_session_id == snap.commit.game_session_id
            &&& session.connection_generation@ == 1
            &&& session.state == GameSessionState::Active
            &&& session.character_id == facts.character_id
            &&& session.lease_generation == facts.character_lease_generation
            &&& post.current == Some(session)
            &&& post.current_transport == Some(transport)
        }),
{
}

/// A COMMIT that names another attempt, or the prepared attempt on another
/// transport, changes nothing: the prepared candidate survives it.
pub proof fn law_mismatched_commit_keeps_prepared_candidate<T, J>(
    v: AuthorityView<T, J>,
    attempt: ReconnectAttemptRef,
    transport: T,
    lease: u64,
    scope: u64,
    looked_up: Result<Option<ReconnectAttemptDisposition>, AdmissionError>,
    committed: Result<(), AdmissionError>,
)
    requires
        v.prepared matches Some(p) && (p.attempt != attempt || p.candidate_transport != transport),
    ensures
        spec_commit_reconnect(v, attempt, transport, lease, scope, looked_up, committed).0 == v,
        spec_commit_reconnect(v, attempt, transport, lease, scope, looked_up, committed).1 is Err || (
        looked_up matches Ok(Some(ReconnectAttemptDisposition::Committed { .. }))),
{
}

/// Fresh admission against a live session hands nothing to the journal, so
/// no session identifier is issued and the grant stays unspent, whatever the
/// journal would have answered.
pub proof fn law_rejected_fresh_admission_asks_the_journal_nothing<T, J>(
    v: AuthorityView<T, J>,
    facts: FreshAdmissionFactsView,
    transport: T,
    retired: Result<(), AdmissionError>,
    fresh: Result<FreshAdmissionAuthoritySnapshotView<T>, AdmissionError>,
)
    requires
        v.current matches Some(s) && s.state != GameSessionState::Terminal,
    ensures
        commit_fresh_requests(v, facts, transport, retired) == Seq::<JournalRequest<T>>::empty(),
        facade_commit_fresh_requests(v, facts, transport, retired, fresh) == Seq::<JournalRequest<T>>::empty(),
{
    assert(facade_commit_fresh_requests(v, facts, transport, retired, fresh) =~= Seq::<JournalRequest<T>>::empty());
}

/// A COMMIT that passes every local check hands the journal exactly one
/// request: the commit of the current session's PREPARED attempt with the
/// PREPARED predecessor, candidate and transport and the current lease and
/// runtime scope generation.
pub proof fn law_commit_hands_over_exactly_the_prepared_binding<T, J>(
    v: AuthorityView<T, J>,
    attempt: ReconnectAttemptRef,
    candidate_transport: T,
    lease: u64,
    scope: u64,
)
    requires
        v.prepared matches Some(p) && p.attempt == attempt && p.candidate_transport == candidate_transport
            && p.lease_generation == lease && p.scope_generation == scope && p.predecessor@ < u64::MAX
            && p.candidate@ == p.predecessor@ + 1,
        v.current matches Some(s) && s.state == GameSessionState::Reconnectable && s.connection_generation
            == v.prepared.unwrap().predecessor && s.lease_generation == lease && s.runtime_scope.generation@ == scope,
    ensures
        ({
            let p = v.prepared.unwrap();
            let s = v.current.unwrap();
            &&& commit_requests(v, attempt, candidate_transport, lease, scope) == seq![
                JournalRequest::CommitPrepared { game_session_id: s.game_session_id, attempt, binding: commit_binding(s, p) },
            ]
            &&& commit_binding(s, p).predecessor_generation == p.predecessor
            &&& commit_binding(s, p).candidate_generation == p.candidate
            &&& commit_binding(s, p).candidate_transport == candidate_transport
        }),
{
}

/// Control changes only after the journal commits: a COMMIT that changes the
/// session or its controller transport does so only when the request it
/// handed the journal was the commit of the PREPARED binding and the
/// journal's answer to that request was success.
pub proof fn law_control_changes_only_after_journal_commit<T, J>(
    v: AuthorityView<T, J>,
    attempt: ReconnectAttemptRef,
    candidate_transport: T,
    lease: u64,
    scope: u64,
    looked_up: Result<Option<ReconnectAttemptDisposition>, AdmissionError>,
    committed: Result<(), AdmissionError>,
)
    ensures
        ({
            let (after, r) = spec_commit_reconnect(v, attempt, candidate_transport, lease, scope, looked_up, committed);
            (after.current != v.current || after.current_transport != v.current_transport) ==> {
                &&& committed is Ok
                &&& r is Ok
                &&& after.current_transport == Some(candidate_transport)
                &&& v.prepared matches Some(p) && commit_requests(v, attempt, candidate_transport, lease, scope) == seq![
                    JournalRequest::CommitPrepared {
                        game_session_id: v.current.unwrap().game_session_id,
                        attempt,
                        binding: commit_binding(v.current.unwrap(), p),
                    },
                ]
            }
        }),
{
    let (after, r) = spec_commit_reconnect(v, attempt, candidate_transport, lease, scope, looked_up, committed);
    if after.current != v.current || after.current_transport != v.current_transport {
        assert(v.prepared is Some);
        assert(r is Ok);
    }
}

/// Only the exact current authority of a record matches it: when current
/// facts match a record, they are, field for field, the facts the record
/// bound (identity, claims, candidate, runtime scope, predecessor, fences,
/// continuity, proof, compatibility revisions and evidence, a reconnectable
/// session without a controller), observed after the record's evidence and
/// no later than its PREPARE deadline.
pub proof fn law_record_matched_only_by_its_exact_authority(
    r: ReconnectDurabilityRecordView,
    c: crate::durability::ReconnectCurrentAuthorityView,
)
    ensures
        matches_record_result(r, c) == Ok::<bool, crate::admission::ReconnectDurabilityErrorV1>(true) ==> {
            &&& c == exact_current_view(r, c.observed_at)
            &&& evidence_observed_by(r, c.observed_at)
            &&& 0 <= c.observed_at <= r.continuity@.prepared_deadline
        },
{
    if matches_record_result(r, c) == Ok::<bool, crate::admission::ReconnectDurabilityErrorV1>(true) {
        let expected = crate::durability::expected_binding_view(r);
        crate::durability::lemma_binding_of_view(expected);
        let b = c.current_candidate.unwrap();
        crate::durability::lemma_binding_view(b, crate::durability::binding_of_view(expected));
        assert(c.current_candidate == Some(crate::durability::binding_of_view(expected)));
        assert(c == exact_current_view(r, c.observed_at));
    }
}

} // verus!
