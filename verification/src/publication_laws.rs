//! Properties of guard publications and claim transitions that hold for
//! every owner answer, stored row and current read.
use vstd::prelude::*;
use crate::publication::{
    change_valid, has_claim, lifecycle_effects_result, locked_successors, publication_error, row_error,
    same_claims, spec_prepare_publication, spec_publication_accept, spec_publication_reconcile,
    spec_publication_submit, spec_validate_locked, state_regresses, locked_error, operation_session,
    AdmissionAuthorityPublicationErrorV1, AdmissionAuthorityPublicationPhaseV1,
    AdmissionAuthorityPublicationSubmissionV1, AdmissionPublicationPreconditionV1, ClaimTransitionView,
    GuardStateView, LifecycleEvidenceView, session_claims_result, claim_preserving_result, LifecycleOperationView, PublicationChangeView, PublicationFlowView,
    SessionSnapshotView,
};

verus! {

proof fn lemma_no_publication_error(changes: Seq<PublicationChangeView>, now: i64, n: int)
    requires
        0 <= n <= changes.len(),
        publication_error(changes, now, n) is None,
    ensures
        forall|i: int| 0 <= i < n ==> change_valid(#[trigger] changes[i], now),
        forall|i: int, j: int| 0 <= j < i < n ==> #[trigger] changes[j].key != #[trigger] changes[i].key,
    decreases n,
{
    if n > 0 {
        lemma_no_publication_error(changes, now, n - 1);
        assert forall|i: int, j: int| 0 <= j < i < n implies #[trigger] changes[j].key != #[trigger] changes[i].key by {
            if i == n - 1 {
                if changes[j].key == changes[i].key {
                    assert(exists|k: int| 0 <= k < n - 1 && #[trigger] changes[k].key == changes[n - 1].key);
                }
            }
        }
    }
}

/// A prepared publication holds at least one change, writes each guard
/// once, and every change is a valid guard write at the time it was prepared.
pub proof fn law_prepared_publication_is_valid(changes: Seq<PublicationChangeView>, now: i64)
    requires
        spec_prepare_publication(changes, now) is Ok,
    ensures
        changes.len() > 0,
        forall|i: int| 0 <= i < changes.len() ==> change_valid(#[trigger] changes[i], now),
        forall|i: int, j: int| 0 <= j < i < changes.len() ==> #[trigger] changes[j].key != #[trigger] changes[i].key,
{
    lemma_no_publication_error(changes, now, changes.len() as int);
}

proof fn lemma_exact_rows_have_no_error(
    changes: Seq<PublicationChangeView>,
    rows: Seq<Option<PublicationChangeView>>,
    n: int,
)
    requires
        0 <= n <= changes.len(),
        rows.len() == changes.len(),
        forall|i: int| 0 <= i < rows.len() ==> #[trigger] rows[i] == Some(changes[i]),
    ensures
        locked_error(changes, rows, n) is None,
    decreases n,
{
    if n > 0 {
        lemma_exact_rows_have_no_error(changes, rows, n - 1);
        assert(rows[n - 1] == Some(changes[n - 1]));
    }
}

/// An exact replay is accepted as it stands: rows that already hold
/// exactly the publication's changes never refuse it, and never re-age it.
pub proof fn law_exact_replay_is_accepted(changes: Seq<PublicationChangeView>, rows: Seq<Option<PublicationChangeView>>)
    requires
        rows.len() == changes.len(),
        forall|i: int| 0 <= i < rows.len() ==> #[trigger] rows[i] == Some(changes[i]),
    ensures
        spec_validate_locked(changes, rows) == Ok::<(), AdmissionAuthorityPublicationErrorV1>(()),
{
    lemma_exact_rows_have_no_error(changes, rows, changes.len() as int);
}

/// A publication alone can neither acquire, release nor move a claim: a
/// bootstrap that holds a claim, or a compare-and-set step that changes the
/// claims of the stored row, is refused.
pub proof fn law_publication_cannot_change_claims(
    change: PublicationChangeView,
    prior: PublicationChangeView,
)
    ensures
        change.precondition is Bootstrap && has_claim(change.state) ==> row_error(change, None) is Some,
        change.precondition is CompareAndSet && !same_claims(prior.state, change.state) ==> row_error(
            change,
            Some(prior),
        ) is Some,
{
    if change.precondition is CompareAndSet && !same_claims(prior.state, change.state) {
        if Some(prior) == Some(change) {
            assert(same_claims(change.state, change.state)) by {
                match change.state {
                    GuardStateView::Account { .. } => {},
                    GuardStateView::Character { .. } => {},
                    GuardStateView::Runtime { .. } => {},
                    GuardStateView::SigningTrust { .. } => {},
                }
            }
        }
    }
}

/// A compare-and-set step never moves a guard's authority backwards: no
/// lower lease or runtime ownership generation, no lower security high
/// water, no older or foreign security source.
pub proof fn law_publication_never_regresses(change: PublicationChangeView, prior: PublicationChangeView)
    requires
        change.precondition is CompareAndSet,
        state_regresses(prior.state, change.state),
    ensures
        row_error(change, Some(prior)) is Some,
{
    if Some(prior) == Some(change) {
        assert(!state_regresses(change.state, change.state)) by {
            match change.state {
                GuardStateView::Account { security, .. } => {
                    assert(crate::publication::same_security_observation(security, security));
                },
                _ => {},
            }
        }
    }
}

/// A publication is preparation, never authority: submitting it or
/// reconciling it never makes it active, whatever the queue answers.
pub proof fn law_pending_publication_is_never_active(
    f: PublicationFlowView,
    answer: AdmissionAuthorityPublicationSubmissionV1,
)
    requires
        f.phase != AdmissionAuthorityPublicationPhaseV1::Active,
    ensures
        spec_publication_submit(f, answer).0.phase != AdmissionAuthorityPublicationPhaseV1::Active,
        spec_publication_reconcile(f, answer).0.phase != AdmissionAuthorityPublicationPhaseV1::Active,
        spec_publication_submit(f, answer).0.request == f.request,
        spec_publication_reconcile(f, answer).0.request == f.request,
{
}

/// A publication becomes active only from a receipt of exactly its request,
/// while every guard currently holds exactly its change.
pub proof fn law_activation_requires_exact_current_rows(
    f: PublicationFlowView,
    receipt: Seq<PublicationChangeView>,
    current: Result<Seq<Option<PublicationChangeView>>, AdmissionAuthorityPublicationErrorV1>,
)
    requires
        spec_publication_accept(f, receipt, current).1 is Ok,
    ensures
        receipt == f.request,
        current matches Ok(rows) && rows.len() == f.request.len() && forall|i: int|
            0 <= i < rows.len() ==> #[trigger] rows[i] == Some(f.request[i]),
        spec_publication_accept(f, receipt, current).0.phase == AdmissionAuthorityPublicationPhaseV1::Active,
        spec_publication_accept(f, receipt, current).0.request == f.request,
{
}

/// Claim successors are handed out only for the operation's own current
/// session, from locked rows that hold exactly the claim predecessors, and
/// only when the transition is exactly the operation's effect.
pub proof fn law_claim_successors_only_from_exact_predecessors(
    ev: LifecycleEvidenceView,
    rows: Seq<Option<PublicationChangeView>>,
    current: SessionSnapshotView,
    now: i64,
)
    requires
        locked_successors(ev, rows, current, now) is Ok,
    ensures
        current == operation_session(ev.operation),
        rows.len() == 2,
        ev.transition.predecessors.len() == 2,
        forall|i: int| 0 <= i < 2 ==> #[trigger] rows[i] == Some(ev.transition.predecessors[i]),
        lifecycle_effects_result(ev.operation, ev.transition, now) is Ok,
        locked_successors(ev, rows, current, now) == Ok::<Seq<PublicationChangeView>, AdmissionAuthorityPublicationErrorV1>(
            ev.transition.successors,
        ),
{
    assert forall|i: int| 0 <= i < 2 implies #[trigger] rows[i] == Some(ev.transition.predecessors[i]) by {
        if rows[i] != Some(ev.transition.predecessors[i]) {
            assert(exists|k: int|
                0 <= k < rows.len() && k < ev.transition.predecessors.len() && #[trigger] rows[k] != Some(
                    ev.transition.predecessors[k],
                ));
        }
    }
}

/// A terminal release drops the account's presence and the character's
/// holder and keeps the character's lease generation; each step advances
/// its guard by exactly one publication revision.
pub proof fn law_terminal_release_frees_claims(op: LifecycleOperationView, e: ClaimTransitionView, now: i64)
    requires
        op is TerminalRelease,
        lifecycle_effects_result(op, e, now) is Ok,
    ensures
        e.predecessors.len() == 2 && e.successors.len() == 2,
        e.successors[0].state matches GuardStateView::Account { presence, .. } && presence is None,
        e.successors[1].state matches GuardStateView::Character { holder, .. } && holder is None,
        ({
            &&& e.successors[1].state matches GuardStateView::Character { lease_generation: new, .. }
            &&& e.predecessors[1].state matches GuardStateView::Character { lease_generation: old, .. }
            &&& old == new
        }),
        forall|i: int| 0 <= i < 2 ==> #[trigger] e.successors[i].publication_revision == e.predecessors[i].publication_revision + 1,
        forall|i: int| 0 <= i < 2 ==> (#[trigger] e.successors[i]).precondition == (AdmissionPublicationPreconditionV1::CompareAndSet {
            expected_publication_revision: e.predecessors[i].publication_revision,
        }),
{
}

/// A runtime guard's ownership generation moves only forward: a
/// compare-and-set of a runtime row that names the expected publication
/// revision, comes from a newer source revision observed no earlier, and
/// keeps the key, authority and purpose is accepted exactly when the new
/// ownership generation is not below the old one, and otherwise refused as
/// stale, both for the row and for the whole locked validation.
pub proof fn law_runtime_ownership_generation_moves_only_forward(
    prior: PublicationChangeView,
    change: PublicationChangeView,
)
    requires
        prior.state is Runtime,
        change.state is Runtime,
        change.precondition == (AdmissionPublicationPreconditionV1::CompareAndSet {
            expected_publication_revision: prior.publication_revision,
        }),
        prior.key == change.key,
        prior.source.authority == change.source.authority,
        prior.source.purpose == change.source.purpose,
        change.source.source_revision > prior.source.source_revision,
        change.source.source_observed_at >= prior.source.source_observed_at,
    ensures
        row_error(change, Some(prior)) is None <==> change.state->Runtime_ownership_generation
            >= prior.state->Runtime_ownership_generation,
        row_error(change, Some(prior)) is Some ==> row_error(change, Some(prior)) == Some(
            AdmissionAuthorityPublicationErrorV1::Stale,
        ),
        spec_validate_locked(seq![change], seq![Some(prior)]) is Ok <==> change.state->Runtime_ownership_generation
            >= prior.state->Runtime_ownership_generation,
{
    reveal_with_fuel(locked_error, 2);
    assert(seq![change].len() == 1);
}

/// A session's claim rows agree with it only when the account guard places
/// the session's character in that session and the character guard is held
/// by that session, for the account and the session's world, at exactly the
/// session's current character lease generation; a write that preserves the
/// session and its claims needs the same of the rows it preserves.
pub proof fn law_session_claims_bind_the_current_lease(
    account_id: Seq<char>,
    s: SessionSnapshotView,
    claims: Seq<PublicationChangeView>,
    expected: SessionSnapshotView,
    rows: Seq<Option<PublicationChangeView>>,
)
    ensures
        session_claims_result(account_id, s, claims) is Ok ==> session_claims_bound(account_id, s, claims),
        claim_preserving_result(account_id, expected, s, claims, rows) is Ok ==> session_claims_bound(
            account_id,
            s,
            claims,
        ) && s == expected,
{
}

/// The two claim rows of a session, as a session needs them.
pub open spec fn session_claims_bound(account_id: Seq<char>, s: SessionSnapshotView, claims: Seq<PublicationChangeView>) -> bool {
    &&& claims.len() == 2
    &&& (claims[0].state matches GuardStateView::Account { presence, .. } && presence == Some(
        (s.commit.character_id, s.commit.game_session_id),
    ))
    &&& (claims[1].state matches GuardStateView::Character { account_id: owner, world_id, lease_generation, holder, .. }
        && owner == account_id && world_id == s.commit.world_id && holder == Some(s.commit.game_session_id)
        && lease_generation == s.current_character_lease@.generation)
}

/// A compare-and-set a locked row accepts (other than an exact replay) names
/// that row's publication revision, keeps its key, authority and purpose,
/// comes from a strictly newer source revision observed no earlier, keeps
/// its claims, and moves no generation back: not the runtime ownership
/// generation, the character lease generation, nor the account's minimum
/// security generation.
pub proof fn law_accepted_compare_and_set_moves_forward(prior: PublicationChangeView, change: PublicationChangeView)
    requires
        change.precondition is CompareAndSet,
        change != prior,
    ensures
        row_error(change, Some(prior)) is None ==> {
            &&& prior.publication_revision == change.precondition->expected_publication_revision
            &&& prior.key == change.key
            &&& prior.source.authority == change.source.authority
            &&& prior.source.purpose == change.source.purpose
            &&& change.source.source_revision > prior.source.source_revision
            &&& change.source.source_observed_at >= prior.source.source_observed_at
            &&& same_claims(prior.state, change.state)
            &&& (prior.state is Runtime && change.state is Runtime ==> change.state->Runtime_ownership_generation
                >= prior.state->Runtime_ownership_generation)
            &&& (prior.state is Character && change.state is Character ==> change.state->Character_lease_generation
                >= prior.state->Character_lease_generation)
            &&& (prior.state is Account && change.state is Account ==> change.state->Account_security.minimum_generation
                >= prior.state->Account_security.minimum_generation)
        },
{
}

} // verus!
