//! Properties of the post-grace recovery write that hold for every report,
//! every source answer and every answer of the foundation helpers.
use vstd::prelude::*;
use crate::admission::ReconnectDurabilityErrorV1;
use crate::post_grace::{
    operation_binding, post_grace_start, spec_post_grace_adopt, spec_post_grace_poll, spec_post_grace_submit,
    spec_post_grace_submit_commit, CompletionView, OutcomeView, PostGraceFlowPhaseV1, PostGraceFlowView,
    PostGraceSubmissionV1,
};
use crate::post_grace_operation::{
    spec_decision_successor, AdoptionCurrentView, EvidenceView, PostGraceAdoptionChecksV1, ReceiptView,
};

verus! {

/// Raw history can request only exact reconciliation: a restored flow can
/// submit neither PREPARE nor COMMIT, whatever the port or the sources say.
pub proof fn law_post_grace_history_requests_only_reconciliation(
    op: EvidenceView,
    revalidated: Result<(), ReconnectDurabilityErrorV1>,
    answer: PostGraceSubmissionV1,
)
    ensures
        ({
            let f = post_grace_start(op, false);
            &&& spec_post_grace_submit(f, PostGraceFlowPhaseV1::Ready, PostGraceFlowPhaseV1::PendingPrepare, answer)
                == (f, Err::<(), ReconnectDurabilityErrorV1>(ReconnectDurabilityErrorV1::InvalidPhase))
            &&& spec_post_grace_submit_commit(f, revalidated, answer) == (f, Err::<(), ReconnectDurabilityErrorV1>(
                ReconnectDurabilityErrorV1::InvalidPhase,
            ))
            &&& spec_post_grace_submit(
                f,
                PostGraceFlowPhaseV1::ReconciliationRequired,
                PostGraceFlowPhaseV1::PendingReconciliation,
                answer,
            ).1 is Ok
        }),
{
}

/// A missing report changes nothing, and an ambiguous one keeps the
/// operation and its receipt, drops the controller projection and requires
/// exact reconciliation.
pub proof fn law_missing_or_ambiguous_outcome_requires_reconciliation(f: PostGraceFlowView, c: CompletionView)
    requires
        f.phase == PostGraceFlowPhaseV1::PendingPrepare || f.phase == PostGraceFlowPhaseV1::PendingCommit || f.phase
            == PostGraceFlowPhaseV1::PendingReconciliation,
    ensures
        spec_post_grace_poll(f, Ok(None)) == (f, Ok::<bool, ReconnectDurabilityErrorV1>(false)),
        c.historical && c.operation == f.operation && c.phase == f.phase && c.outcome == OutcomeView::Ambiguous
            ==> spec_post_grace_poll(f, Ok(Some(c))) == (
            PostGraceFlowView { phase: PostGraceFlowPhaseV1::ReconciliationRequired, controller: None, ..f },
            Ok::<bool, ReconnectDurabilityErrorV1>(true),
        ),
{
}

/// A report of another operation is refused and changes nothing.
pub proof fn law_foreign_report_is_refused(f: PostGraceFlowView, c: CompletionView)
    requires
        f.phase == PostGraceFlowPhaseV1::PendingPrepare || f.phase == PostGraceFlowPhaseV1::PendingCommit || f.phase
            == PostGraceFlowPhaseV1::PendingReconciliation,
        c.operation != f.operation,
    ensures
        spec_post_grace_poll(f, Ok(Some(c))) == (f, Err::<bool, ReconnectDurabilityErrorV1>(
            ReconnectDurabilityErrorV1::CompletionMismatch,
        )),
{
}

/// A historical winner alone cannot install control: no report ever sets a
/// controller projection, it only keeps or drops it.
pub proof fn law_reports_never_install_control(
    f: PostGraceFlowView,
    answer: Result<Option<CompletionView>, ReconnectDurabilityErrorV1>,
)
    ensures
        spec_post_grace_poll(f, answer).0.controller == f.controller || spec_post_grace_poll(
            f,
            answer,
        ).0.controller is None,
{
}

/// The adoption fence: success installs exactly the operation's candidate
/// session, generation and transport, only from a committed receipt; any
/// failure leaves no controller projection.
pub proof fn law_adoption_fence(
    f: PostGraceFlowView,
    current: Result<AdoptionCurrentView, ReconnectDurabilityErrorV1>,
    checks: PostGraceAdoptionChecksV1,
    now: i64,
)
    ensures
        spec_post_grace_adopt(f, current, checks, now).1 is Ok ==> f.receipt is Some && current is Ok
            && spec_post_grace_adopt(f, current, checks, now).0.controller == Some(operation_binding(f.operation))
            && spec_post_grace_adopt(f, current, checks, now).0.phase == PostGraceFlowPhaseV1::Adopted,
        spec_post_grace_adopt(f, current, checks, now).1 is Err ==> spec_post_grace_adopt(f, current, checks, now).0.controller is None,
{
}

/// Direct and reconciled success meet the same fence: a COMMIT reported for
/// the pending COMMIT and for the pending reconciliation leaves the same flow.
pub proof fn law_direct_and_reconciled_success_share_one_fence(f: PostGraceFlowView, direct: CompletionView)
    requires
        f.phase == PostGraceFlowPhaseV1::PendingCommit,
        direct.phase == PostGraceFlowPhaseV1::PendingCommit,
        direct.outcome is Committed,
    ensures
        ({
            let g = PostGraceFlowView { phase: PostGraceFlowPhaseV1::PendingReconciliation, ..f };
            let reconciled = CompletionView { phase: PostGraceFlowPhaseV1::PendingReconciliation, ..direct };
            spec_post_grace_poll(f, Ok(Some(direct))).1 is Ok ==> spec_post_grace_poll(f, Ok(Some(direct))).0
                == spec_post_grace_poll(g, Ok(Some(reconciled))).0
        }),
{
}

/// A receipt is recorded only for a decision that succeeds, at its own
/// decision time, the decision that authorized the flow's operation: a
/// report whose decision does not is refused and changes nothing.
pub proof fn law_receipt_only_for_a_succeeding_decision(f: PostGraceFlowView, c: CompletionView)
    ensures
        ({
            let (g, r) = spec_post_grace_poll(f, Ok(Some(c)));
            &&& g.receipt != f.receipt && r is Ok ==> (c.outcome matches OutcomeView::Committed { decided_at, decision }
                && c.committed_valid && spec_decision_successor(
                decision,
                f.operation.authorization,
                f.operation.operation,
                decided_at,
                c.decision_checks,
            ) is Ok && g.receipt == Some(ReceiptView { operation: f.operation, decided_at, decision }))
            &&& r is Err ==> g == f
        }),
{
}

} // verus!
