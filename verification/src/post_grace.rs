//! The post-grace recovery write: what is submitted in which phase, how a
//! durable report of the flow's own operation is classified, and the one
//! adoption fence through which direct and reconciled success install the
//! operation's controller.
//!
//! The comparison of a durable report with the flow's own operation and the
//! adoption matrix are computed here. Only the answers of the few foundation
//! helpers this crate does not hold (credential revalidation, the claim
//! transition, resource bounds and source trust) arrive as values.
use vstd::prelude::*;
use crate::admission::ReconnectDurabilityErrorV1;
use crate::durability::AuthenticatedTransportRefV1;
use crate::ids::{ConnectionGeneration, GameSessionId};
use crate::post_grace_operation::{
    spec_decision_successor, PostGraceDecisionSuccessionChecksV1, spec_post_grace_adoption, validate_post_grace_adoption, AdoptionCurrentView, DecisionView, EvidenceView,
    PostGraceAdoptionChecksV1, PostGraceAdoptionCurrentV1, PostGraceClaimEvidenceV1, PostGraceCommitReceiptV1,
    PostGraceRecoveryDecisionAuditV1, ReceiptView,
};

verus! {

broadcast use crate::ids::group_id_views, crate::durability::lemma_transport_view;

#[derive(Debug, Clone, Copy, PartialEq, Eq, Structural)]
pub enum PostGraceSubmissionV1 {
    Accepted,
    Unavailable,
}

#[derive(Debug, Clone, Copy, PartialEq, Eq, Structural)]
pub enum PostGraceRequestKindV1 {
    Prepare,
    Commit,
    Reconcile,
}

#[derive(Debug, Clone, Copy, PartialEq, Eq, Structural)]
pub enum PostGraceFlowPhaseV1 {
    Ready,
    PendingPrepare,
    Prepared,
    PendingCommit,
    ReconciliationRequired,
    PendingReconciliation,
    AwaitingAdoption,
    Adopted,
    Rejected,
}

#[derive(Debug, Clone, Copy, PartialEq, Eq, Structural)]
pub enum PostGraceTerminalReasonV1 {
    TransportCollision,
    AttemptCapacityExceeded,
    StaleAuthority,
    DeadlineExpired,
    EpochClosed,
    InvalidOperation,
}

pub enum PostGraceDurableOutcomeV1 {
    Prepared,
    Committed { decided_at: i64, decision: PostGraceRecoveryDecisionAuditV1 },
    Rejected { reason: PostGraceTerminalReasonV1 },
    Ambiguous,
}

pub enum OutcomeView {
    Prepared,
    Committed { decided_at: i64, decision: DecisionView },
    Rejected { reason: PostGraceTerminalReasonV1 },
    Ambiguous,
}

impl View for PostGraceDurableOutcomeV1 {
    type V = OutcomeView;

    open spec fn view(&self) -> OutcomeView {
        match self {
            PostGraceDurableOutcomeV1::Prepared => OutcomeView::Prepared,
            PostGraceDurableOutcomeV1::Committed { decided_at, decision } => OutcomeView::Committed {
                decided_at: *decided_at,
                decision: decision@,
            },
            PostGraceDurableOutcomeV1::Rejected { reason } => OutcomeView::Rejected { reason: *reason },
            PostGraceDurableOutcomeV1::Ambiguous => OutcomeView::Ambiguous,
        }
    }
}

/// A durable report taken from the completion source, with the foundation
/// helpers' answers on it: whether the reported claim evidence is
/// historically valid at its own preparation, and, for a COMMIT, whether the
/// flow's claim evidence is valid at the decision time and what the
/// succession check of the reported decision needs.
pub struct PostGraceDurableCompletionV1 {
    pub operation: PostGraceClaimEvidenceV1,
    pub phase: PostGraceFlowPhaseV1,
    pub outcome: PostGraceDurableOutcomeV1,
    pub historical: bool,
    pub committed_valid: bool,
    pub decision_checks: PostGraceDecisionSuccessionChecksV1,
}

pub struct CompletionView {
    pub operation: EvidenceView,
    pub phase: PostGraceFlowPhaseV1,
    pub outcome: OutcomeView,
    pub historical: bool,
    pub committed_valid: bool,
    pub decision_checks: PostGraceDecisionSuccessionChecksV1,
}

impl View for PostGraceDurableCompletionV1 {
    type V = CompletionView;

    open spec fn view(&self) -> CompletionView {
        CompletionView {
            operation: self.operation@,
            phase: self.phase,
            outcome: self.outcome@,
            historical: self.historical,
            committed_valid: self.committed_valid,
            decision_checks: self.decision_checks,
        }
    }
}

/// The controller a committed post-grace operation installs.
#[derive(Debug, Clone, Copy)]
pub struct PostGraceControllerBindingV1 {
    session: GameSessionId,
    generation: ConnectionGeneration,
    transport: AuthenticatedTransportRefV1,
}

pub struct BindingView {
    pub session: GameSessionId,
    pub generation: ConnectionGeneration,
    pub transport: AuthenticatedTransportRefV1,
}

impl View for PostGraceControllerBindingV1 {
    type V = BindingView;

    closed spec fn view(&self) -> BindingView {
        BindingView { session: self.session, generation: self.generation, transport: self.transport }
    }
}

impl PostGraceControllerBindingV1 {
    pub fn session(self) -> (r: GameSessionId)
        ensures
            r == self@.session,
    {
        self.session
    }

    pub fn generation(self) -> (r: ConnectionGeneration)
        ensures
            r == self@.generation,
    {
        self.generation
    }

    pub fn transport(self) -> (r: AuthenticatedTransportRefV1)
        ensures
            r == self@.transport,
    {
        self.transport
    }
}

/// The controller an operation installs: its candidate session, candidate
/// generation and transport.
pub open spec fn operation_binding(op: EvidenceView) -> BindingView {
    BindingView {
        session: op.operation.candidate,
        generation: op.operation.candidate_generation,
        transport: op.operation.transport,
    }
}

/// A request handed to the durability port: its kind, the flow's operation,
/// and whether it carries the flow's live authorization (reconciliation never
/// does).
pub struct PostGraceDurabilityRequestV1 {
    kind: PostGraceRequestKindV1,
    operation: PostGraceClaimEvidenceV1,
    authorized: bool,
}

impl View for PostGraceDurabilityRequestV1 {
    type V = (PostGraceRequestKindV1, EvidenceView, bool);

    closed spec fn view(&self) -> (PostGraceRequestKindV1, EvidenceView, bool) {
        (self.kind, self.operation@, self.authorized)
    }
}

impl PostGraceDurabilityRequestV1 {
    pub fn kind(&self) -> (r: PostGraceRequestKindV1)
        ensures
            r == self@.0,
    {
        self.kind
    }

    pub fn operation(&self) -> (r: &PostGraceClaimEvidenceV1)
        ensures
            r@ == self@.1,
    {
        &self.operation
    }

    pub fn carries_authorization(&self) -> (r: bool)
        ensures
            r == self@.2,
    {
        self.authorized
    }
}

/// The bounded executor that takes post-grace writes.
pub trait PostGraceDurabilityPortV1 {
    fn submit(&mut self, request: &PostGraceDurabilityRequestV1) -> PostGraceSubmissionV1;
}

/// The life of one post-grace recovery write.
pub struct PostGraceDurabilityFlowV1 {
    operation: PostGraceClaimEvidenceV1,
    authorized: bool,
    phase: PostGraceFlowPhaseV1,
    receipt: Option<PostGraceCommitReceiptV1>,
    terminal_reason: Option<PostGraceTerminalReasonV1>,
    controller: Option<PostGraceControllerBindingV1>,
    submissions: Ghost<Seq<PortSubmission>>,
}

/// One request handed to the port (its kind, claim evidence and whether it
/// carries the live authorization) with the port's answer to it.
pub struct PortSubmission {
    pub request: (PostGraceRequestKindV1, EvidenceView, bool),
    pub answer: PostGraceSubmissionV1,
}

/// The request a flow in state `f` hands to the port for `kind`: its own
/// claim evidence, carrying the authorization it holds except for
/// reconciliation.
pub open spec fn submission_request(f: PostGraceFlowView, kind: PostGraceRequestKindV1) -> (
    PostGraceRequestKindV1,
    EvidenceView,
    bool,
) {
    (kind, f.operation, kind != PostGraceRequestKindV1::Reconcile && f.authorized)
}

/// What handing `kind` to the port from phase `from` logs: the request and
/// the port's answer when the flow was in that phase, nothing otherwise.
pub open spec fn submit_log(
    f: PostGraceFlowView,
    kind: PostGraceRequestKindV1,
    from: PostGraceFlowPhaseV1,
    answer: PostGraceSubmissionV1,
) -> Seq<PortSubmission> {
    if f.phase == from {
        seq![PortSubmission { request: submission_request(f, kind), answer }]
    } else {
        Seq::empty()
    }
}

pub struct PostGraceFlowView {
    pub operation: EvidenceView,
    /// A live authorization is held (never after restoring raw history).
    pub authorized: bool,
    pub phase: PostGraceFlowPhaseV1,
    pub receipt: Option<ReceiptView>,
    pub terminal_reason: Option<PostGraceTerminalReasonV1>,
    /// The controller projection, present only after adoption.
    pub controller: Option<BindingView>,
}

impl View for PostGraceDurabilityFlowV1 {
    type V = PostGraceFlowView;

    closed spec fn view(&self) -> PostGraceFlowView {
        PostGraceFlowView {
            operation: self.operation@,
            authorized: self.authorized,
            phase: self.phase,
            receipt: match self.receipt {
                Some(r) => Some(r@),
                None => None,
            },
            terminal_reason: self.terminal_reason,
            controller: match self.controller {
                Some(c) => Some(c@),
                None => None,
            },
        }
    }
}

/// A flow at its start over `op`: ready with a live authorization, or, from
/// raw history, waiting for exact reconciliation with none.
pub open spec fn post_grace_start(op: EvidenceView, authorized: bool) -> PostGraceFlowView {
    PostGraceFlowView {
        operation: op,
        authorized,
        phase: if authorized {
            PostGraceFlowPhaseV1::Ready
        } else {
            PostGraceFlowPhaseV1::ReconciliationRequired
        },
        receipt: None,
        terminal_reason: None,
        controller: None,
    }
}

/// Handing a request of `kind` to the port from phase `from`: refused in any
/// other phase; an accepted submission moves the flow to `to`.
pub open spec fn spec_post_grace_submit(
    f: PostGraceFlowView,
    from: PostGraceFlowPhaseV1,
    to: PostGraceFlowPhaseV1,
    answer: PostGraceSubmissionV1,
) -> (PostGraceFlowView, Result<(), ReconnectDurabilityErrorV1>) {
    if f.phase != from {
        (f, Err(ReconnectDurabilityErrorV1::InvalidPhase))
    } else if answer == PostGraceSubmissionV1::Accepted {
        (PostGraceFlowView { phase: to, ..f }, Ok(()))
    } else {
        (f, Ok(()))
    }
}

/// COMMIT: only from PREPARED with a live authorization that current sources
/// revalidated (`revalidated`); an accepted submission awaits its outcome.
pub open spec fn spec_post_grace_submit_commit(
    f: PostGraceFlowView,
    revalidated: Result<(), ReconnectDurabilityErrorV1>,
    answer: PostGraceSubmissionV1,
) -> (PostGraceFlowView, Result<(), ReconnectDurabilityErrorV1>) {
    if f.phase != PostGraceFlowPhaseV1::Prepared || !f.authorized {
        (f, Err(ReconnectDurabilityErrorV1::InvalidPhase))
    } else {
        match revalidated {
            Err(e) => (f, Err(e)),
            Ok(()) => spec_post_grace_submit(f, PostGraceFlowPhaseV1::Prepared, PostGraceFlowPhaseV1::PendingCommit, answer),
        }
    }
}

/// The flow is waiting for the durable outcome of a submitted write.
pub open spec fn post_grace_pending(phase: PostGraceFlowPhaseV1) -> bool {
    phase == PostGraceFlowPhaseV1::PendingPrepare || phase == PostGraceFlowPhaseV1::PendingCommit || phase
        == PostGraceFlowPhaseV1::PendingReconciliation
}

/// What one report does to a pending flow: only a historically valid report
/// of exactly this operation, for the phase it is in, counts.
pub open spec fn spec_post_grace_report(f: PostGraceFlowView, c: CompletionView) -> (
    PostGraceFlowView,
    Result<bool, ReconnectDurabilityErrorV1>,
) {
    if !c.historical || c.operation != f.operation || c.phase != f.phase {
        (f, Err(ReconnectDurabilityErrorV1::CompletionMismatch))
    } else {
        match c.outcome {
            OutcomeView::Prepared => if f.phase == PostGraceFlowPhaseV1::PendingCommit {
                (f, Err(ReconnectDurabilityErrorV1::CompletionMismatch))
            } else {
                (PostGraceFlowView { phase: PostGraceFlowPhaseV1::Prepared, ..f }, Ok(true))
            },
            OutcomeView::Committed { decided_at, decision } => if !c.committed_valid {
                (f, Err(ReconnectDurabilityErrorV1::CompletionMismatch))
            } else {
                match spec_decision_successor(
                    decision,
                    f.operation.authorization,
                    f.operation.operation,
                    decided_at,
                    c.decision_checks,
                ) {
                    Err(e) => (f, Err(e)),
                    Ok(()) => (
                        PostGraceFlowView {
                            receipt: Some(ReceiptView { operation: f.operation, decided_at, decision }),
                            phase: PostGraceFlowPhaseV1::AwaitingAdoption,
                            ..f
                        },
                        Ok(true),
                    ),
                }
            },
            OutcomeView::Rejected { reason } => (
                PostGraceFlowView {
                    phase: PostGraceFlowPhaseV1::Rejected,
                    terminal_reason: Some(reason),
                    controller: None,
                    ..f
                },
                Ok(true),
            ),
            OutcomeView::Ambiguous => (
                PostGraceFlowView { phase: PostGraceFlowPhaseV1::ReconciliationRequired, controller: None, ..f },
                Ok(true),
            ),
        }
    }
}

/// Polling the completion source: only while a write is pending; `Ok(false)`
/// while no report is there yet.
pub open spec fn spec_post_grace_poll(
    f: PostGraceFlowView,
    answer: Result<Option<CompletionView>, ReconnectDurabilityErrorV1>,
) -> (PostGraceFlowView, Result<bool, ReconnectDurabilityErrorV1>) {
    if !post_grace_pending(f.phase) {
        (f, Err(ReconnectDurabilityErrorV1::InvalidPhase))
    } else {
        match answer {
            Err(e) => (f, Err(e)),
            Ok(None) => (f, Ok(false)),
            Ok(Some(c)) => spec_post_grace_report(f, c),
        }
    }
}

pub open spec fn completion_answer_view(
    a: Result<Option<PostGraceDurableCompletionV1>, ReconnectDurabilityErrorV1>,
) -> Result<Option<CompletionView>, ReconnectDurabilityErrorV1> {
    match a {
        Err(e) => Err(e),
        Ok(None) => Ok(None),
        Ok(Some(c)) => Ok(Some(c@)),
    }
}

pub open spec fn adoption_current_view(
    r: Result<PostGraceAdoptionCurrentV1, ReconnectDurabilityErrorV1>,
) -> Result<AdoptionCurrentView, ReconnectDurabilityErrorV1> {
    match r {
        Ok(c) => Ok(c@),
        Err(e) => Err(e),
    }
}

/// The one adoption fence: it first drops the controller projection, then
/// installs the operation's own controller only from a committed receipt
/// that the independently current owning-source facts confirm.
pub open spec fn spec_post_grace_adopt(
    f: PostGraceFlowView,
    current: Result<AdoptionCurrentView, ReconnectDurabilityErrorV1>,
    checks: PostGraceAdoptionChecksV1,
    now: i64,
) -> (PostGraceFlowView, Result<(), ReconnectDurabilityErrorV1>) {
    let cleared = PostGraceFlowView { controller: None, ..f };
    if !(f.phase == PostGraceFlowPhaseV1::AwaitingAdoption || f.phase == PostGraceFlowPhaseV1::Adopted) {
        (cleared, Err(ReconnectDurabilityErrorV1::InvalidPhase))
    } else {
        let waiting = PostGraceFlowView { phase: PostGraceFlowPhaseV1::AwaitingAdoption, ..cleared };
        if f.receipt is None {
            (waiting, Err(ReconnectDurabilityErrorV1::InvalidPhase))
        } else if current is Err {
            (waiting, Err(current->Err_0))
        } else if spec_post_grace_adoption(f.receipt->Some_0, current->Ok_0, checks, now) is Err {
            (waiting, Err(spec_post_grace_adoption(f.receipt->Some_0, current->Ok_0, checks, now)->Err_0))
        } else {
            (
                PostGraceFlowView {
                    phase: PostGraceFlowPhaseV1::Adopted,
                    controller: Some(operation_binding(f.operation)),
                    ..f
                },
                Ok(()),
            )
        }
    }
}

/// Resuming a PREPARED write with an authorization that current sources
/// revalidated and whose claims were resumed (`reauthorized`).
pub open spec fn spec_post_grace_resume(f: PostGraceFlowView, reauthorized: Result<(), ReconnectDurabilityErrorV1>) -> (
    PostGraceFlowView,
    Result<(), ReconnectDurabilityErrorV1>,
) {
    if f.phase != PostGraceFlowPhaseV1::Prepared {
        (f, Err(ReconnectDurabilityErrorV1::InvalidPhase))
    } else {
        match reauthorized {
            Err(e) => (f, Err(e)),
            Ok(()) => (PostGraceFlowView { authorized: true, ..f }, Ok(())),
        }
    }
}

impl PostGraceDurabilityFlowV1 {
    /// Begins a fresh write with the claim evidence the owning source
    /// prepared; a failed preparation is stale authority.
    pub fn begin(prepared: Result<PostGraceClaimEvidenceV1, ReconnectDurabilityErrorV1>) -> (r: Result<
        Self,
        ReconnectDurabilityErrorV1,
    >)
        ensures
            match prepared {
                Ok(op) => r matches Ok(f) && f@ == post_grace_start(op@, true) && f.port_submissions() == Seq::<
                    PortSubmission,
                >::empty(),
                Err(_) => r == Err::<Self, ReconnectDurabilityErrorV1>(ReconnectDurabilityErrorV1::StaleAuthority),
            },
    {
        let operation = match prepared {
            Err(_) => return Err(ReconnectDurabilityErrorV1::StaleAuthority),
            Ok(op) => op,
        };
        Ok(
            Self {
                operation,
                authorized: true,
                phase: PostGraceFlowPhaseV1::Ready,
                receipt: None,
                terminal_reason: None,
                controller: None,
                submissions: Ghost(Seq::empty()),
            },
        )
    }

    /// Restores a flow from raw history whose validation gave `historical`:
    /// it can request only exact reconciliation, never PREPARE or COMMIT.
    pub fn restore_history(operation: PostGraceClaimEvidenceV1, historical: bool) -> (r: Result<
        Self,
        ReconnectDurabilityErrorV1,
    >)
        ensures
            historical ==> (r matches Ok(f) && f@ == post_grace_start(operation@, false) && f.port_submissions()
                == Seq::<PortSubmission>::empty()),
            !historical ==> r == Err::<Self, ReconnectDurabilityErrorV1>(ReconnectDurabilityErrorV1::InvalidRecord),
    {
        if !historical {
            return Err(ReconnectDurabilityErrorV1::InvalidRecord);
        }
        Ok(
            Self {
                operation,
                authorized: false,
                phase: PostGraceFlowPhaseV1::ReconciliationRequired,
                receipt: None,
                terminal_reason: None,
                controller: None,
                submissions: Ghost(Seq::empty()),
            },
        )
    }

    pub fn operation(&self) -> (r: &PostGraceClaimEvidenceV1)
        ensures
            r@ == self@.operation,
    {
        &self.operation
    }

    /// Every request this flow handed to its port, with the port's answer, in
    /// order.
    pub closed spec fn port_submissions(&self) -> Seq<PortSubmission> {
        self.submissions@
    }

    pub fn phase(&self) -> (r: PostGraceFlowPhaseV1)
        ensures
            r == self@.phase,
    {
        self.phase
    }

    pub fn receipt(&self) -> (r: Option<&PostGraceCommitReceiptV1>)
        ensures
            match r {
                Some(x) => self@.receipt == Some(x@),
                None => self@.receipt is None,
            },
    {
        self.receipt.as_ref()
    }

    pub fn terminal_reason(&self) -> (r: Option<PostGraceTerminalReasonV1>)
        ensures
            r == self@.terminal_reason,
    {
        self.terminal_reason
    }

    pub fn controller(&self) -> (r: Option<PostGraceControllerBindingV1>)
        ensures
            r is Some <==> self@.controller is Some,
            r matches Some(c) ==> self@.controller == Some(c@),
    {
        self.controller
    }

    fn submit_from<P: PostGraceDurabilityPortV1>(
        &mut self,
        port: &mut P,
        kind: PostGraceRequestKindV1,
        from: PostGraceFlowPhaseV1,
        to: PostGraceFlowPhaseV1,
    ) -> (r: Result<(), ReconnectDurabilityErrorV1>)
        ensures
            exists|answer: PostGraceSubmissionV1|
                #[trigger] spec_post_grace_submit(old(self)@, from, to, answer) == (final(self)@, r)
                    && final(self).port_submissions() == old(self).port_submissions() + submit_log(
                    old(self)@,
                    kind,
                    from,
                    answer,
                ),
    {
        if self.phase != from {
            assert(spec_post_grace_submit(old(self)@, from, to, PostGraceSubmissionV1::Unavailable) == (
            self@, Err::<(), ReconnectDurabilityErrorV1>(ReconnectDurabilityErrorV1::InvalidPhase)));
            assert(self.port_submissions() == old(self).port_submissions() + submit_log(
                old(self)@,
                kind,
                from,
                PostGraceSubmissionV1::Unavailable,
            ));
            return Err(ReconnectDurabilityErrorV1::InvalidPhase);
        }
        let request = PostGraceDurabilityRequestV1 {
            kind,
            operation: self.operation.duplicate(),
            authorized: kind != PostGraceRequestKindV1::Reconcile && self.authorized,
        };
        let answer = port.submit(&request);
        proof {
            self.submissions@ = self.submissions@.push(PortSubmission { request: request@, answer });
        }
        if answer == PostGraceSubmissionV1::Accepted {
            self.phase = to;
        }
        assert(spec_post_grace_submit(old(self)@, from, to, answer) == (self@, Ok::<(), ReconnectDurabilityErrorV1>(()))
            && self.port_submissions() == old(self).port_submissions() + submit_log(old(self)@, kind, from, answer));
        Ok(())
    }

    /// Submits the PREPARE of a ready flow.
    pub fn submit_prepare<P: PostGraceDurabilityPortV1>(&mut self, port: &mut P) -> (r: Result<
        (),
        ReconnectDurabilityErrorV1,
    >)
        ensures
            exists|answer: PostGraceSubmissionV1|
                #[trigger] spec_post_grace_submit(
                    old(self)@,
                    PostGraceFlowPhaseV1::Ready,
                    PostGraceFlowPhaseV1::PendingPrepare,
                    answer,
                ) == (final(self)@, r) && final(self).port_submissions() == old(self).port_submissions() + submit_log(
                    old(self)@,
                    PostGraceRequestKindV1::Prepare,
                    PostGraceFlowPhaseV1::Ready,
                    answer,
                ),
    {
        self.submit_from(port, PostGraceRequestKindV1::Prepare, PostGraceFlowPhaseV1::Ready, PostGraceFlowPhaseV1::PendingPrepare)
    }

    /// Submits the COMMIT of a PREPARED flow whose authorization current
    /// sources revalidated (`revalidated`).
    pub fn submit_commit<P: PostGraceDurabilityPortV1>(
        &mut self,
        port: &mut P,
        revalidated: Result<(), ReconnectDurabilityErrorV1>,
    ) -> (r: Result<(), ReconnectDurabilityErrorV1>)
        ensures
            exists|answer: PostGraceSubmissionV1|
                #[trigger] spec_post_grace_submit_commit(old(self)@, revalidated, answer) == (final(self)@, r)
                    && final(self).port_submissions() == old(self).port_submissions() + (if old(self)@.authorized
                    && revalidated is Ok {
                    submit_log(old(self)@, PostGraceRequestKindV1::Commit, PostGraceFlowPhaseV1::Prepared, answer)
                } else {
                    Seq::empty()
                }),
    {
        if self.phase != PostGraceFlowPhaseV1::Prepared || !self.authorized {
            assert(spec_post_grace_submit_commit(old(self)@, revalidated, PostGraceSubmissionV1::Unavailable) == (
            self@, Err::<(), ReconnectDurabilityErrorV1>(ReconnectDurabilityErrorV1::InvalidPhase)));
            assert(self.port_submissions() =~= old(self).port_submissions() + (if old(self)@.authorized && revalidated is Ok {
                submit_log(old(self)@, PostGraceRequestKindV1::Commit, PostGraceFlowPhaseV1::Prepared, PostGraceSubmissionV1::Unavailable)
            } else {
                Seq::empty()
            }));
            return Err(ReconnectDurabilityErrorV1::InvalidPhase);
        }
        if let Err(e) = revalidated {
            assert(spec_post_grace_submit_commit(old(self)@, revalidated, PostGraceSubmissionV1::Unavailable) == (
            self@, Err::<(), ReconnectDurabilityErrorV1>(e)));
            assert(self.port_submissions() =~= old(self).port_submissions() + Seq::<PortSubmission>::empty());
            return Err(e);
        }
        let r = self.submit_from(port, PostGraceRequestKindV1::Commit, PostGraceFlowPhaseV1::Prepared, PostGraceFlowPhaseV1::PendingCommit);
        proof {
            let w = choose|w: PostGraceSubmissionV1|
                #[trigger] spec_post_grace_submit(
                    old(self)@,
                    PostGraceFlowPhaseV1::Prepared,
                    PostGraceFlowPhaseV1::PendingCommit,
                    w,
                ) == (self@, r) && self.port_submissions() == old(self).port_submissions() + submit_log(
                    old(self)@,
                    PostGraceRequestKindV1::Commit,
                    PostGraceFlowPhaseV1::Prepared,
                    w,
                );
            assert(spec_post_grace_submit_commit(old(self)@, revalidated, w) == (self@, r) && self.port_submissions()
                == old(self).port_submissions() + (if old(self)@.authorized && revalidated is Ok {
                submit_log(old(self)@, PostGraceRequestKindV1::Commit, PostGraceFlowPhaseV1::Prepared, w)
            } else {
                Seq::empty()
            }));
        }
        r
    }

    /// Submits the exact reconciliation of a flow whose outcome is unknown.
    pub fn reconcile<P: PostGraceDurabilityPortV1>(&mut self, port: &mut P) -> (r: Result<
        (),
        ReconnectDurabilityErrorV1,
    >)
        ensures
            exists|answer: PostGraceSubmissionV1|
                #[trigger] spec_post_grace_submit(
                    old(self)@,
                    PostGraceFlowPhaseV1::ReconciliationRequired,
                    PostGraceFlowPhaseV1::PendingReconciliation,
                    answer,
                ) == (final(self)@, r) && final(self).port_submissions() == old(self).port_submissions() + submit_log(
                    old(self)@,
                    PostGraceRequestKindV1::Reconcile,
                    PostGraceFlowPhaseV1::ReconciliationRequired,
                    answer,
                ),
    {
        self.submit_from(
            port,
            PostGraceRequestKindV1::Reconcile,
            PostGraceFlowPhaseV1::ReconciliationRequired,
            PostGraceFlowPhaseV1::PendingReconciliation,
        )
    }

    fn accept_report(&mut self, c: PostGraceDurableCompletionV1) -> (r: Result<bool, ReconnectDurabilityErrorV1>)
        ensures
            spec_post_grace_report(old(self)@, c@) == (final(self)@, r),
    {
        if !c.historical || !c.operation.same(&self.operation) || c.phase != self.phase {
            return Err(ReconnectDurabilityErrorV1::CompletionMismatch);
        }
        match c.outcome {
            PostGraceDurableOutcomeV1::Prepared => {
                if self.phase == PostGraceFlowPhaseV1::PendingCommit {
                    return Err(ReconnectDurabilityErrorV1::CompletionMismatch);
                }
                self.phase = PostGraceFlowPhaseV1::Prepared;
            },
            PostGraceDurableOutcomeV1::Committed { decided_at, decision } => {
                if !c.committed_valid {
                    return Err(ReconnectDurabilityErrorV1::CompletionMismatch);
                }
                if let Err(e) = decision.validate_successor_of(
                    &self.operation.authorization,
                    &self.operation.operation,
                    decided_at,
                    c.decision_checks,
                ) {
                    return Err(e);
                }
                self.receipt = Some(PostGraceCommitReceiptV1::new(self.operation.duplicate(), decided_at, decision));
                self.phase = PostGraceFlowPhaseV1::AwaitingAdoption;
            },
            PostGraceDurableOutcomeV1::Rejected { reason } => {
                self.phase = PostGraceFlowPhaseV1::Rejected;
                self.terminal_reason = Some(reason);
                self.controller = None;
            },
            PostGraceDurableOutcomeV1::Ambiguous => {
                self.phase = PostGraceFlowPhaseV1::ReconciliationRequired;
                self.controller = None;
            },
        }
        Ok(true)
    }

    /// Takes what the completion source answered for a pending write. Missing
    /// and ambiguous outcomes keep the operation and require exact
    /// reconciliation.
    pub fn poll(
        &mut self,
        answer: Result<Option<PostGraceDurableCompletionV1>, ReconnectDurabilityErrorV1>,
    ) -> (r: Result<bool, ReconnectDurabilityErrorV1>)
        ensures
            spec_post_grace_poll(old(self)@, completion_answer_view(answer)) == (final(self)@, r),
    {
        match self.phase {
            PostGraceFlowPhaseV1::PendingPrepare | PostGraceFlowPhaseV1::PendingCommit
            | PostGraceFlowPhaseV1::PendingReconciliation => {},
            _ => return Err(ReconnectDurabilityErrorV1::InvalidPhase),
        }
        match answer {
            Err(e) => Err(e),
            Ok(None) => Ok(false),
            Ok(Some(c)) => self.accept_report(c),
        }
    }

    /// Adopts the committed winner through the one adoption fence against the
    /// owning source's current facts resolved at `now`.
    pub fn adopt(
        &mut self,
        current: Result<PostGraceAdoptionCurrentV1, ReconnectDurabilityErrorV1>,
        checks: PostGraceAdoptionChecksV1,
        now: i64,
    ) -> (r: Result<(), ReconnectDurabilityErrorV1>)
        ensures
            spec_post_grace_adopt(old(self)@, adoption_current_view(current), checks, now) == (final(self)@, r),
    {
        self.controller = None;
        match self.phase {
            PostGraceFlowPhaseV1::AwaitingAdoption | PostGraceFlowPhaseV1::Adopted => {},
            _ => return Err(ReconnectDurabilityErrorV1::InvalidPhase),
        }
        self.phase = PostGraceFlowPhaseV1::AwaitingAdoption;
        let current = match current {
            Err(e) => {
                if self.receipt.is_none() {
                    return Err(ReconnectDurabilityErrorV1::InvalidPhase);
                }
                return Err(e);
            },
            Ok(c) => c,
        };
        let checked = match &self.receipt {
            None => return Err(ReconnectDurabilityErrorV1::InvalidPhase),
            Some(receipt) => validate_post_grace_adoption(receipt, &current, checks, now),
        };
        if let Err(e) = checked {
            return Err(e);
        }
        let op = &self.operation.operation;
        self.controller = Some(
            PostGraceControllerBindingV1 { session: op.candidate, generation: op.candidate_generation, transport: op.transport },
        );
        self.phase = PostGraceFlowPhaseV1::Adopted;
        Ok(())
    }

    /// Resumes a PREPARED flow with an authorization that current sources
    /// revalidated and whose claims were resumed (`reauthorized`).
    pub fn resume_prepared(&mut self, reauthorized: Result<(), ReconnectDurabilityErrorV1>) -> (r: Result<
        (),
        ReconnectDurabilityErrorV1,
    >)
        ensures
            spec_post_grace_resume(old(self)@, reauthorized) == (final(self)@, r),
    {
        if self.phase != PostGraceFlowPhaseV1::Prepared {
            return Err(ReconnectDurabilityErrorV1::InvalidPhase);
        }
        match reauthorized {
            Err(e) => Err(e),
            Ok(()) => {
                self.authorized = true;
                Ok(())
            },
        }
    }
}

} // verus!
