//! Split-phase durable PREPARE / COMMIT / reconciliation of one reconnect
//! attempt. Each flow is a state machine fed by the completions the durable
//! store reports.
use vstd::prelude::*;
use crate::admission::ReconnectDurabilityErrorV1;
use crate::budget::{
    spec_accept_prepare, ReconnectAttemptBudgetV1, ReconnectAttemptBudgetView,
    ReconnectPrepareDispositionV1,
};
use crate::durability::{
    authorization_deadline_of, current_authority_matches_record, evidence_observed_by,
    matches_record_result, AuthenticatedTransportRefV1, ReconnectCurrentAuthorityV1,
    ReconnectCurrentAuthorityView, ReconnectDurabilityRecordV1, ReconnectDurabilityRecordView,
    TerminalGameSessionReplacementAuthorizationV1, TerminalReplacementView,
};
use crate::ids::ConnectionGeneration;

verus! {

broadcast use crate::ids::group_id_views, crate::durability::lemma_transport_view;

#[derive(Debug, Clone, Copy, PartialEq, Eq, Structural)]
pub enum ReconnectDurabilityPhaseV1 {
    PendingPrepare,
    AwaitFinalRevalidation,
    PendingCommit,
    ReconciliationRequired,
    Terminal,
    Completed,
}

/// The PREPARE write of one record.
#[derive(Debug, Clone, PartialEq, Eq)]
pub struct ReconnectPrepareRequestV1 {
    record: Box<ReconnectDurabilityRecordV1>,
}

impl View for ReconnectPrepareRequestV1 {
    type V = ReconnectDurabilityRecordView;

    closed spec fn view(&self) -> ReconnectDurabilityRecordView {
        self.record@
    }
}

impl ReconnectPrepareRequestV1 {
    pub fn record(&self) -> (r: &ReconnectDurabilityRecordV1)
        ensures
            r@ == self@,
    {
        &self.record
    }

    fn duplicate(&self) -> (r: Self)
        ensures
            r@ == self@,
    {
        Self { record: Box::new(self.record.duplicate()) }
    }
}

/// What the durable store reported for a PREPARE write.
#[derive(Debug, Clone, PartialEq, Eq)]
pub struct ReconnectPrepareCompletionV1 {
    request: ReconnectPrepareRequestV1,
    disposition: ReconnectPrepareDispositionV1,
}

impl ReconnectPrepareCompletionV1 {
    pub fn for_request(request: &ReconnectPrepareRequestV1, disposition: ReconnectPrepareDispositionV1) -> (r: Self)
        ensures
            r.spec_request() == request@,
            r.spec_disposition() == disposition,
    {
        Self { request: request.duplicate(), disposition }
    }

    pub closed spec fn spec_request(self) -> ReconnectDurabilityRecordView {
        self.request@
    }

    pub closed spec fn spec_disposition(self) -> ReconnectPrepareDispositionV1 {
        self.disposition
    }
}

#[derive(Debug, Clone, PartialEq, Eq)]
pub enum ReconnectPrepareActionV1 {
    RetrySameRequest(ReconnectPrepareRequestV1),
    AwaitFinalRevalidation,
    ReconcileSameAttempt,
    Terminal(ReconnectPrepareDispositionV1),
}

/// A flow action with any request it carries taken by its record.
pub enum FlowActionView<D> {
    RetrySameRequest(ReconnectDurabilityRecordView),
    AwaitFinalRevalidation,
    ReconcileSameAttempt,
    Terminal(D),
}

pub open spec fn prepare_action_v1_view(a: ReconnectPrepareActionV1) -> FlowActionView<ReconnectPrepareDispositionV1> {
    match a {
        ReconnectPrepareActionV1::RetrySameRequest(q) => FlowActionView::RetrySameRequest(q@),
        ReconnectPrepareActionV1::AwaitFinalRevalidation => FlowActionView::AwaitFinalRevalidation,
        ReconnectPrepareActionV1::ReconcileSameAttempt => FlowActionView::ReconcileSameAttempt,
        ReconnectPrepareActionV1::Terminal(d) => FlowActionView::Terminal(d),
    }
}

/// The authorization a COMMIT write carries: the last instant it is valid.
#[derive(Debug, Clone, Copy, PartialEq, Eq, Structural)]
pub struct ReconnectCommitAuthorizationV1 {
    authorization_deadline: i64,
}

impl ReconnectCommitAuthorizationV1 {
    pub closed spec fn spec_deadline(self) -> i64 {
        self.authorization_deadline
    }

    pub fn authorization_deadline(self) -> (r: i64)
        ensures
            r == self.spec_deadline(),
    {
        self.authorization_deadline
    }
}

/// The COMMIT write of one record under one authorization.
#[derive(Debug, Clone, PartialEq, Eq)]
pub struct ReconnectCommitRequestV1 {
    record: Box<ReconnectDurabilityRecordV1>,
    authorization: ReconnectCommitAuthorizationV1,
}

pub struct ReconnectCommitRequestView {
    pub record: ReconnectDurabilityRecordView,
    pub authorization_deadline: i64,
}

impl View for ReconnectCommitRequestV1 {
    type V = ReconnectCommitRequestView;

    closed spec fn view(&self) -> ReconnectCommitRequestView {
        ReconnectCommitRequestView { record: self.record@, authorization_deadline: self.authorization.spec_deadline() }
    }
}

impl ReconnectCommitRequestV1 {
    pub fn record(&self) -> (r: &ReconnectDurabilityRecordV1)
        ensures
            r@ == self@.record,
    {
        &self.record
    }

    pub fn authorization(&self) -> (r: ReconnectCommitAuthorizationV1)
        ensures
            r.spec_deadline() == self@.authorization_deadline,
    {
        self.authorization
    }

    fn duplicate(&self) -> (r: Self)
        ensures
            r@ == self@,
    {
        Self { record: Box::new(self.record.duplicate()), authorization: self.authorization }
    }

    fn same(&self, other: &Self) -> (r: bool)
        ensures
            r == (self@ == other@),
    {
        self.record.same(&other.record) && self.authorization.authorization_deadline
            == other.authorization.authorization_deadline
    }
}

#[derive(Debug, Clone, Copy, PartialEq, Eq, Structural)]
pub enum ReconnectCommitDispositionV1 {
    Committed,
    Unavailable,
    Ambiguous,
    RejectedStaleAuthority,
    ExistingTerminal,
    IdempotencyConflict,
}

/// What the durable store reported for a COMMIT write.
#[derive(Debug, Clone, PartialEq, Eq)]
pub struct ReconnectCommitCompletionV1 {
    request: ReconnectCommitRequestV1,
    disposition: ReconnectCommitDispositionV1,
}

impl ReconnectCommitCompletionV1 {
    pub fn for_request(request: &ReconnectCommitRequestV1, disposition: ReconnectCommitDispositionV1) -> (r: Self)
        ensures
            r.spec_request() == request@,
            r.spec_disposition() == disposition,
    {
        Self { request: request.duplicate(), disposition }
    }

    pub closed spec fn spec_request(self) -> ReconnectCommitRequestView {
        self.request@
    }

    pub closed spec fn spec_disposition(self) -> ReconnectCommitDispositionV1 {
        self.disposition
    }
}

#[derive(Debug, Clone, PartialEq, Eq)]
pub enum ReconnectCommitActionV1 {
    RetrySameRequest(ReconnectCommitRequestV1),
    ReconcileSameAttempt,
    Terminal(ReconnectCommitDispositionV1),
}

/// A COMMIT action with the request it carries taken by its view.
pub enum CommitActionView {
    RetrySameRequest(ReconnectCommitRequestView),
    ReconcileSameAttempt,
    Terminal(ReconnectCommitDispositionV1),
}

pub open spec fn commit_action_view(a: ReconnectCommitActionV1) -> CommitActionView {
    match a {
        ReconnectCommitActionV1::RetrySameRequest(q) => CommitActionView::RetrySameRequest(q@),
        ReconnectCommitActionV1::ReconcileSameAttempt => CommitActionView::ReconcileSameAttempt,
        ReconnectCommitActionV1::Terminal(d) => CommitActionView::Terminal(d),
    }
}

#[derive(Debug, Clone, Copy, PartialEq, Eq, Structural)]
pub enum DurableReconnectStateV1 {
    Prepared,
    Committed,
    Terminal,
}

/// What one durable read reports of a record's reconnect.
#[derive(Debug, Clone, PartialEq, Eq)]
pub struct ReconnectDurableReconciliationSnapshotV1 {
    record: ReconnectDurabilityRecordV1,
    durable_state: DurableReconnectStateV1,
    current_generation: Option<ConnectionGeneration>,
    current_transport_ref: Option<AuthenticatedTransportRefV1>,
}

pub struct ReconnectDurableReconciliationSnapshotView {
    pub record: ReconnectDurabilityRecordView,
    pub durable_state: DurableReconnectStateV1,
    pub current_generation: Option<ConnectionGeneration>,
    pub current_transport_ref: Option<AuthenticatedTransportRefV1>,
}

impl View for ReconnectDurableReconciliationSnapshotV1 {
    type V = ReconnectDurableReconciliationSnapshotView;

    closed spec fn view(&self) -> ReconnectDurableReconciliationSnapshotView {
        ReconnectDurableReconciliationSnapshotView {
            record: self.record@,
            durable_state: self.durable_state,
            current_generation: self.current_generation,
            current_transport_ref: self.current_transport_ref,
        }
    }
}

impl ReconnectDurableReconciliationSnapshotV1 {
    /// A durable read reporting exactly these facts.
    pub fn new(
        record: ReconnectDurabilityRecordV1,
        durable_state: DurableReconnectStateV1,
        current_generation: Option<ConnectionGeneration>,
        current_transport_ref: Option<AuthenticatedTransportRefV1>,
    ) -> (r: Self)
        ensures
            r@ == (ReconnectDurableReconciliationSnapshotView {
                record: record@,
                durable_state,
                current_generation,
                current_transport_ref,
            }),
    {
        Self { record, durable_state, current_generation, current_transport_ref }
    }

    /// The record committed: its candidate and transport are current.
    pub fn committed(record: ReconnectDurabilityRecordV1) -> (r: Self)
        ensures
            r@ == (ReconnectDurableReconciliationSnapshotView {
                record: record@,
                durable_state: DurableReconnectStateV1::Committed,
                current_generation: Some(record@.connection@.candidate),
                current_transport_ref: Some(record@.connection@.transport_ref),
            }),
    {
        let candidate = record.connection().candidate();
        let transport_ref = record.connection().transport_ref();
        Self {
            record,
            durable_state: DurableReconnectStateV1::Committed,
            current_generation: Some(candidate),
            current_transport_ref: Some(transport_ref),
        }
    }

    pub fn prepared(record: ReconnectDurabilityRecordV1) -> (r: Self)
        ensures
            r@ == (ReconnectDurableReconciliationSnapshotView {
                record: record@,
                durable_state: DurableReconnectStateV1::Prepared,
                current_generation: None,
                current_transport_ref: None,
            }),
    {
        Self { record, durable_state: DurableReconnectStateV1::Prepared, current_generation: None, current_transport_ref: None }
    }

    pub fn terminal(record: ReconnectDurabilityRecordV1) -> (r: Self)
        ensures
            r@ == (ReconnectDurableReconciliationSnapshotView {
                record: record@,
                durable_state: DurableReconnectStateV1::Terminal,
                current_generation: None,
                current_transport_ref: None,
            }),
    {
        Self { record, durable_state: DurableReconnectStateV1::Terminal, current_generation: None, current_transport_ref: None }
    }

    pub fn record(&self) -> (r: &ReconnectDurabilityRecordV1)
        ensures
            r@ == self@.record,
    {
        &self.record
    }

    pub fn durable_state(&self) -> (r: DurableReconnectStateV1)
        ensures
            r == self@.durable_state,
    {
        self.durable_state
    }

    pub fn current_generation(&self) -> (r: Option<ConnectionGeneration>)
        ensures
            r == self@.current_generation,
    {
        self.current_generation
    }

    pub fn current_transport_ref(&self) -> (r: Option<AuthenticatedTransportRefV1>)
        ensures
            r == self@.current_transport_ref,
    {
        self.current_transport_ref
    }
}

#[derive(Debug, Clone, Copy, PartialEq, Eq)]
pub enum ReconnectProjectionDecisionV1 {
    InstallController { generation: ConnectionGeneration, transport_ref: AuthenticatedTransportRefV1 },
    AwaitFinalRevalidation,
    Terminal,
}

#[derive(Debug, Clone, Copy, PartialEq, Eq, Structural)]
pub enum ReconnectDurableTerminalDispositionV1 {
    TransportRefCollision,
    ConcurrentPrepared,
    StaleAuthority,
}

#[derive(Debug, Clone, Copy, PartialEq, Eq)]
pub enum ReconnectDurableOutcomeV2 {
    Prepared,
    Committed { current_generation: ConnectionGeneration, current_transport_ref: AuthenticatedTransportRefV1 },
    Terminal { disposition: ReconnectDurableTerminalDispositionV1 },
}

/// What one durable read reports of a record's reconnect outcome.
#[derive(Debug, Clone, PartialEq, Eq)]
pub struct ReconnectDurableReconciliationSnapshotV2 {
    record: ReconnectDurabilityRecordV1,
    outcome: ReconnectDurableOutcomeV2,
}

impl ReconnectDurableReconciliationSnapshotV2 {
    pub fn new(record: ReconnectDurabilityRecordV1, outcome: ReconnectDurableOutcomeV2) -> (r: Self)
        ensures
            r.spec_record() == record@,
            r.spec_outcome() == outcome,
    {
        Self { record, outcome }
    }

    pub closed spec fn spec_record(self) -> ReconnectDurabilityRecordView {
        self.record@
    }

    pub closed spec fn spec_outcome(self) -> ReconnectDurableOutcomeV2 {
        self.outcome
    }

    pub fn record(&self) -> (r: &ReconnectDurabilityRecordV1)
        ensures
            r@ == self.spec_record(),
    {
        &self.record
    }

    pub fn outcome(&self) -> (r: ReconnectDurableOutcomeV2)
        ensures
            r == self.spec_outcome(),
    {
        self.outcome
    }
}

/// The PREPARE write of one record, possibly replacing a terminal session.
#[derive(Debug, Clone, PartialEq, Eq)]
pub struct ReconnectPrepareRequestV2 {
    record: Box<ReconnectDurabilityRecordV1>,
    terminal_replacement: Option<TerminalGameSessionReplacementAuthorizationV1>,
}

pub struct ReconnectPrepareRequestV2View {
    pub record: ReconnectDurabilityRecordView,
    pub terminal_replacement: Option<TerminalReplacementView>,
}

pub open spec fn optional_replacement_view(t: Option<TerminalGameSessionReplacementAuthorizationV1>) -> Option<TerminalReplacementView> {
    match t {
        Some(t) => Some(t@),
        None => None,
    }
}

impl View for ReconnectPrepareRequestV2 {
    type V = ReconnectPrepareRequestV2View;

    closed spec fn view(&self) -> ReconnectPrepareRequestV2View {
        ReconnectPrepareRequestV2View {
            record: self.record@,
            terminal_replacement: optional_replacement_view(self.terminal_replacement),
        }
    }
}

impl ReconnectPrepareRequestV2 {
    pub fn record(&self) -> (r: &ReconnectDurabilityRecordV1)
        ensures
            r@ == self@.record,
    {
        &self.record
    }

    pub fn terminal_replacement(&self) -> (r: Option<&TerminalGameSessionReplacementAuthorizationV1>)
        ensures
            match r {
                Some(t) => self@.terminal_replacement == Some(t@),
                None => self@.terminal_replacement is None,
            },
    {
        self.terminal_replacement.as_ref()
    }

    fn duplicate(&self) -> (r: Self)
        ensures
            r@ == self@,
    {
        let terminal_replacement = match &self.terminal_replacement {
            Some(t) => Some(t.duplicate()),
            None => None,
        };
        Self { record: Box::new(self.record.duplicate()), terminal_replacement }
    }

    fn same(&self, other: &Self) -> (r: bool)
        ensures
            r == (self@ == other@),
    {
        let replacement_same = match (&self.terminal_replacement, &other.terminal_replacement) {
            (Some(a), Some(b)) => a.same(b),
            (None, None) => true,
            _ => false,
        };
        self.record.same(&other.record) && replacement_same
    }
}

#[derive(Debug, Clone, Copy, PartialEq, Eq, Structural)]
pub enum ReconnectPrepareDispositionV2 {
    Prepared,
    ExistingPrepared,
    RejectedTransportRefCollision,
    RejectedConcurrentPrepared,
    RejectedStaleAuthority,
    AttemptCapacityExceeded,
    ExistingTerminal { disposition: ReconnectDurableTerminalDispositionV1 },
    Unavailable,
    Ambiguous,
    IdempotencyConflict,
}

/// What the durable store reported for a PREPARE write.
#[derive(Debug, Clone, PartialEq, Eq)]
pub struct ReconnectPrepareCompletionV2 {
    request: ReconnectPrepareRequestV2,
    disposition: ReconnectPrepareDispositionV2,
}

impl ReconnectPrepareCompletionV2 {
    pub fn for_request(request: &ReconnectPrepareRequestV2, disposition: ReconnectPrepareDispositionV2) -> (r: Self)
        ensures
            r.spec_request() == request@,
            r.spec_disposition() == disposition,
    {
        Self { request: request.duplicate(), disposition }
    }

    pub closed spec fn spec_request(self) -> ReconnectPrepareRequestV2View {
        self.request@
    }

    pub closed spec fn spec_disposition(self) -> ReconnectPrepareDispositionV2 {
        self.disposition
    }
}

#[derive(Debug, Clone, PartialEq, Eq)]
pub enum ReconnectPrepareActionV2 {
    RetrySameRequest(ReconnectPrepareRequestV2),
    AwaitFinalRevalidation,
    ReconcileSameAttempt,
    Terminal(ReconnectPrepareDispositionV2),
}

/// A PREPARE action with the request it carries taken by its view.
pub enum PrepareActionV2View {
    RetrySameRequest(ReconnectPrepareRequestV2View),
    AwaitFinalRevalidation,
    ReconcileSameAttempt,
    Terminal(ReconnectPrepareDispositionV2),
}

pub open spec fn prepare_action_v2_view(a: ReconnectPrepareActionV2) -> PrepareActionV2View {
    match a {
        ReconnectPrepareActionV2::RetrySameRequest(q) => PrepareActionV2View::RetrySameRequest(q@),
        ReconnectPrepareActionV2::AwaitFinalRevalidation => PrepareActionV2View::AwaitFinalRevalidation,
        ReconnectPrepareActionV2::ReconcileSameAttempt => PrepareActionV2View::ReconcileSameAttempt,
        ReconnectPrepareActionV2::Terminal(d) => PrepareActionV2View::Terminal(d),
    }
}

#[derive(Debug, Clone, Copy, PartialEq, Eq)]
pub enum ReconnectProjectionDecisionV2 {
    InstallController { generation: ConnectionGeneration, transport_ref: AuthenticatedTransportRefV1 },
    AwaitFinalRevalidation,
    Terminal { disposition: ReconnectDurableTerminalDispositionV1 },
}

impl ReconnectProjectionDecisionV2 {
    pub fn terminal_disposition(self) -> (r: Option<ReconnectDurableTerminalDispositionV1>)
        ensures
            r == (match self {
                ReconnectProjectionDecisionV2::Terminal { disposition } => Some(disposition),
                _ => None,
            }),
    {
        match self {
            ReconnectProjectionDecisionV2::Terminal { disposition } => Some(disposition),
            _ => None,
        }
    }
}

/// The budget disposition that records a durable terminal outcome.
pub open spec fn budget_disposition_for_terminal(d: ReconnectDurableTerminalDispositionV1) -> ReconnectPrepareDispositionV1 {
    match d {
        ReconnectDurableTerminalDispositionV1::TransportRefCollision => ReconnectPrepareDispositionV1::RejectedTransportRefCollision,
        ReconnectDurableTerminalDispositionV1::ConcurrentPrepared => ReconnectPrepareDispositionV1::RejectedConcurrentPrepared,
        ReconnectDurableTerminalDispositionV1::StaleAuthority => ReconnectPrepareDispositionV1::RejectedStaleAuthority,
    }
}

fn v1_budget_disposition_for_terminal(d: ReconnectDurableTerminalDispositionV1) -> (r: ReconnectPrepareDispositionV1)
    ensures
        r == budget_disposition_for_terminal(d),
{
    match d {
        ReconnectDurableTerminalDispositionV1::TransportRefCollision => ReconnectPrepareDispositionV1::RejectedTransportRefCollision,
        ReconnectDurableTerminalDispositionV1::ConcurrentPrepared => ReconnectPrepareDispositionV1::RejectedConcurrentPrepared,
        ReconnectDurableTerminalDispositionV1::StaleAuthority => ReconnectPrepareDispositionV1::RejectedStaleAuthority,
    }
}


/// The V1 reconnect durability flow of one record.
#[derive(Debug, Clone, PartialEq, Eq)]
pub struct ReconnectDurabilityFlowV1 {
    record: ReconnectDurabilityRecordV1,
    prepare_request: ReconnectPrepareRequestV1,
    commit_request: Option<ReconnectCommitRequestV1>,
    phase: ReconnectDurabilityPhaseV1,
}

pub struct ReconnectDurabilityFlowV1View {
    pub record: ReconnectDurabilityRecordView,
    pub prepare_request: ReconnectDurabilityRecordView,
    pub commit_request: Option<ReconnectCommitRequestView>,
    pub phase: ReconnectDurabilityPhaseV1,
}

pub open spec fn optional_commit_request_view(q: Option<ReconnectCommitRequestV1>) -> Option<ReconnectCommitRequestView> {
    match q {
        Some(q) => Some(q@),
        None => None,
    }
}

impl View for ReconnectDurabilityFlowV1 {
    type V = ReconnectDurabilityFlowV1View;

    closed spec fn view(&self) -> ReconnectDurabilityFlowV1View {
        ReconnectDurabilityFlowV1View {
            record: self.record@,
            prepare_request: self.prepare_request@,
            commit_request: optional_commit_request_view(self.commit_request),
            phase: self.phase,
        }
    }
}

/// A flow in `phase` with its state otherwise unchanged.
pub open spec fn v1_in_phase(f: ReconnectDurabilityFlowV1View, phase: ReconnectDurabilityPhaseV1) -> ReconnectDurabilityFlowV1View {
    ReconnectDurabilityFlowV1View { phase, ..f }
}

pub open spec fn spec_v1_accept_prepare(
    f: ReconnectDurabilityFlowV1View,
    request: ReconnectDurabilityRecordView,
    disposition: ReconnectPrepareDispositionV1,
) -> (ReconnectDurabilityFlowV1View, Result<FlowActionView<ReconnectPrepareDispositionV1>, ReconnectDurabilityErrorV1>) {
    if f.phase != ReconnectDurabilityPhaseV1::PendingPrepare {
        (f, Err(ReconnectDurabilityErrorV1::InvalidPhase))
    } else if request != f.prepare_request {
        (f, Err(ReconnectDurabilityErrorV1::CompletionMismatch))
    } else {
        match disposition {
            ReconnectPrepareDispositionV1::Prepared | ReconnectPrepareDispositionV1::ExistingPrepared => (
                v1_in_phase(f, ReconnectDurabilityPhaseV1::AwaitFinalRevalidation),
                Ok(FlowActionView::AwaitFinalRevalidation),
            ),
            ReconnectPrepareDispositionV1::Unavailable => (f, Ok(FlowActionView::RetrySameRequest(f.prepare_request))),
            ReconnectPrepareDispositionV1::Ambiguous | ReconnectPrepareDispositionV1::ExistingTerminal => (
                v1_in_phase(f, ReconnectDurabilityPhaseV1::ReconciliationRequired),
                Ok(FlowActionView::ReconcileSameAttempt),
            ),
            _ => (v1_in_phase(f, ReconnectDurabilityPhaseV1::Terminal), Ok(FlowActionView::Terminal(disposition))),
        }
    }
}

/// Final revalidation before COMMIT: the exact current authority and fresh
/// evidence must still confirm the record before its deadline.
pub open spec fn spec_authorize_commit(
    record: ReconnectDurabilityRecordView,
    phase: ReconnectDurabilityPhaseV1,
    current: ReconnectCurrentAuthorityView,
    now: i64,
) -> (ReconnectDurabilityPhaseV1, Result<ReconnectCommitRequestView, ReconnectDurabilityErrorV1>) {
    if phase != ReconnectDurabilityPhaseV1::AwaitFinalRevalidation {
        (phase, Err(ReconnectDurabilityErrorV1::InvalidPhase))
    } else {
        match matches_record_result(record, current) {
            Err(e) => (phase, Err(e)),
            Ok(matched) => if !matched || !evidence_observed_by(record, now) {
                (ReconnectDurabilityPhaseV1::Terminal, Err(ReconnectDurabilityErrorV1::StaleAuthority))
            } else {
                match authorization_deadline_of(record) {
                    None => (phase, Err(ReconnectDurabilityErrorV1::InvalidRecord)),
                    Some(deadline) => if now > deadline || current.observed_at > deadline {
                        (ReconnectDurabilityPhaseV1::Terminal, Err(ReconnectDurabilityErrorV1::DeadlineExpired))
                    } else {
                        (
                            ReconnectDurabilityPhaseV1::PendingCommit,
                            Ok(ReconnectCommitRequestView { record, authorization_deadline: deadline }),
                        )
                    },
                }
            },
        }
    }
}

pub open spec fn spec_v1_accept_commit(
    f: ReconnectDurabilityFlowV1View,
    request: ReconnectCommitRequestView,
    disposition: ReconnectCommitDispositionV1,
) -> (ReconnectDurabilityFlowV1View, Result<CommitActionView, ReconnectDurabilityErrorV1>) {
    if f.phase != ReconnectDurabilityPhaseV1::PendingCommit {
        (f, Err(ReconnectDurabilityErrorV1::InvalidPhase))
    } else if f.commit_request != Some(request) {
        (f, Err(ReconnectDurabilityErrorV1::CompletionMismatch))
    } else {
        commit_disposition_step(f, request, disposition)
    }
}

pub open spec fn commit_disposition_step(
    f: ReconnectDurabilityFlowV1View,
    request: ReconnectCommitRequestView,
    disposition: ReconnectCommitDispositionV1,
) -> (ReconnectDurabilityFlowV1View, Result<CommitActionView, ReconnectDurabilityErrorV1>) {
    match disposition {
        ReconnectCommitDispositionV1::Unavailable => (f, Ok(CommitActionView::RetrySameRequest(request))),
        ReconnectCommitDispositionV1::Committed | ReconnectCommitDispositionV1::Ambiguous => (
            v1_in_phase(f, ReconnectDurabilityPhaseV1::ReconciliationRequired),
            Ok(CommitActionView::ReconcileSameAttempt),
        ),
        _ => (v1_in_phase(f, ReconnectDurabilityPhaseV1::Terminal), Ok(CommitActionView::Terminal(disposition))),
    }
}

/// A COMMIT the store reported is installed only when the read shows this
/// record's exact candidate and transport and the current authority still
/// confirms the record within its deadline.
pub open spec fn committed_reconciliation(
    record: ReconnectDurabilityRecordView,
    generation: Option<ConnectionGeneration>,
    transport_ref: Option<AuthenticatedTransportRefV1>,
    current: ReconnectCurrentAuthorityView,
) -> Result<bool, ReconnectDurabilityErrorV1> {
    if generation != Some(record.connection@.candidate) || transport_ref != Some(record.connection@.transport_ref) {
        Ok(false)
    } else {
        match authorization_deadline_of(record) {
            None => Err(ReconnectDurabilityErrorV1::InvalidRecord),
            Some(deadline) => if current.observed_at > deadline {
                Ok(false)
            } else {
                matches_record_result(record, current)
            },
        }
    }
}

pub open spec fn spec_v1_reconcile(
    f: ReconnectDurabilityFlowV1View,
    snapshot: crate::flows::ReconnectDurableReconciliationSnapshotView,
    current: ReconnectCurrentAuthorityView,
) -> (ReconnectDurabilityFlowV1View, Result<ReconnectProjectionDecisionV1, ReconnectDurabilityErrorV1>) {
    if f.phase != ReconnectDurabilityPhaseV1::ReconciliationRequired {
        (f, Err(ReconnectDurabilityErrorV1::InvalidPhase))
    } else if snapshot.record != f.record {
        (f, Err(ReconnectDurabilityErrorV1::ReconciliationMismatch))
    } else {
        match snapshot.durable_state {
            DurableReconnectStateV1::Prepared => if snapshot.current_generation is Some
                || snapshot.current_transport_ref is Some {
                (f, Err(ReconnectDurabilityErrorV1::ReconciliationMismatch))
            } else {
                (
                    v1_in_phase(f, ReconnectDurabilityPhaseV1::AwaitFinalRevalidation),
                    Ok(ReconnectProjectionDecisionV1::AwaitFinalRevalidation),
                )
            },
            DurableReconnectStateV1::Committed => match committed_reconciliation(
                f.record,
                snapshot.current_generation,
                snapshot.current_transport_ref,
                current,
            ) {
                Err(e) => (f, Err(e)),
                Ok(false) => (f, Err(ReconnectDurabilityErrorV1::ReconciliationMismatch)),
                Ok(true) => (
                    v1_in_phase(f, ReconnectDurabilityPhaseV1::Completed),
                    Ok(
                        ReconnectProjectionDecisionV1::InstallController {
                            generation: f.record.connection@.candidate,
                            transport_ref: f.record.connection@.transport_ref,
                        },
                    ),
                ),
            },
            DurableReconnectStateV1::Terminal => (
                v1_in_phase(f, ReconnectDurabilityPhaseV1::Terminal),
                Ok(ReconnectProjectionDecisionV1::Terminal),
            ),
        }
    }
}

fn committed_reconciliation_exec(
    record: &ReconnectDurabilityRecordV1,
    generation: Option<ConnectionGeneration>,
    transport_ref: Option<AuthenticatedTransportRefV1>,
    current: &ReconnectCurrentAuthorityV1,
) -> (r: Result<bool, ReconnectDurabilityErrorV1>)
    ensures
        r == committed_reconciliation(record@, generation, transport_ref, current@),
{
    let connection = record.connection();
    let generation_matches = match generation {
        Some(g) => g == connection.candidate(),
        None => false,
    };
    let transport_matches = match transport_ref {
        Some(t) => t == connection.transport_ref(),
        None => false,
    };
    if !generation_matches || !transport_matches {
        return Ok(false);
    }
    let deadline = match record.authorization_deadline() {
        Ok(d) => d,
        Err(e) => return Err(e),
    };
    if current.observed_at() > deadline {
        return Ok(false);
    }
    current_authority_matches_record(record, current)
}

fn authorize_commit_exec(
    record: &ReconnectDurabilityRecordV1,
    phase: ReconnectDurabilityPhaseV1,
    current: &ReconnectCurrentAuthorityV1,
    now: i64,
) -> (r: (ReconnectDurabilityPhaseV1, Result<ReconnectCommitRequestV1, ReconnectDurabilityErrorV1>))
    ensures
        spec_authorize_commit(record@, phase, current@, now) == (r.0, match r.1 {
            Ok(q) => Ok(q@),
            Err(e) => Err(e),
        }),
{
    if phase != ReconnectDurabilityPhaseV1::AwaitFinalRevalidation {
        return (phase, Err(ReconnectDurabilityErrorV1::InvalidPhase));
    }
    let matched = match current_authority_matches_record(record, current) {
        Ok(m) => m,
        Err(e) => return (phase, Err(e)),
    };
    if !matched || !record.evidence_observed_by(now) {
        return (ReconnectDurabilityPhaseV1::Terminal, Err(ReconnectDurabilityErrorV1::StaleAuthority));
    }
    let deadline = match record.authorization_deadline() {
        Ok(d) => d,
        Err(e) => return (phase, Err(e)),
    };
    if now > deadline || current.observed_at() > deadline {
        return (ReconnectDurabilityPhaseV1::Terminal, Err(ReconnectDurabilityErrorV1::DeadlineExpired));
    }
    let request = ReconnectCommitRequestV1 {
        record: Box::new(record.duplicate()),
        authorization: ReconnectCommitAuthorizationV1 { authorization_deadline: deadline },
    };
    (ReconnectDurabilityPhaseV1::PendingCommit, Ok(request))
}

impl ReconnectDurabilityFlowV1 {
    pub fn begin(record: ReconnectDurabilityRecordV1) -> (r: (Self, ReconnectPrepareRequestV1))
        ensures
            r.0@ == (ReconnectDurabilityFlowV1View {
                record: record@,
                prepare_request: record@,
                commit_request: None,
                phase: ReconnectDurabilityPhaseV1::PendingPrepare,
            }),
            r.1@ == record@,
    {
        let prepare_request = ReconnectPrepareRequestV1 { record: Box::new(record.duplicate()) };
        let returned = prepare_request.duplicate();
        (
            Self { record, prepare_request, commit_request: None, phase: ReconnectDurabilityPhaseV1::PendingPrepare },
            returned,
        )
    }

    pub fn phase(&self) -> (r: ReconnectDurabilityPhaseV1)
        ensures
            r == self@.phase,
    {
        self.phase
    }

    pub fn accept_prepare_completion(&mut self, completion: ReconnectPrepareCompletionV1) -> (r: Result<
        ReconnectPrepareActionV1,
        ReconnectDurabilityErrorV1,
    >)
        ensures
            spec_v1_accept_prepare(old(self)@, completion.spec_request(), completion.spec_disposition()) == (
            final(self)@, match r {
                Ok(a) => Ok(prepare_action_v1_view(a)),
                Err(e) => Err(e),
            }),
    {
        if self.phase != ReconnectDurabilityPhaseV1::PendingPrepare {
            return Err(ReconnectDurabilityErrorV1::InvalidPhase);
        }
        if !completion.request.record.same(&self.prepare_request.record) {
            return Err(ReconnectDurabilityErrorV1::CompletionMismatch);
        }
        match completion.disposition {
            ReconnectPrepareDispositionV1::Prepared | ReconnectPrepareDispositionV1::ExistingPrepared => {
                self.phase = ReconnectDurabilityPhaseV1::AwaitFinalRevalidation;
                Ok(ReconnectPrepareActionV1::AwaitFinalRevalidation)
            },
            ReconnectPrepareDispositionV1::Unavailable => Ok(
                ReconnectPrepareActionV1::RetrySameRequest(self.prepare_request.duplicate()),
            ),
            ReconnectPrepareDispositionV1::Ambiguous | ReconnectPrepareDispositionV1::ExistingTerminal => {
                self.phase = ReconnectDurabilityPhaseV1::ReconciliationRequired;
                Ok(ReconnectPrepareActionV1::ReconcileSameAttempt)
            },
            terminal => {
                self.phase = ReconnectDurabilityPhaseV1::Terminal;
                Ok(ReconnectPrepareActionV1::Terminal(terminal))
            },
        }
    }

    pub fn authorize_commit(&mut self, current: ReconnectCurrentAuthorityV1, now: i64) -> (r: Result<
        ReconnectCommitRequestV1,
        ReconnectDurabilityErrorV1,
    >)
        ensures
            ({
                let (phase, result) = spec_authorize_commit(old(self)@.record, old(self)@.phase, current@, now);
                &&& final(self)@.phase == phase
                &&& final(self)@.record == old(self)@.record
                &&& final(self)@.prepare_request == old(self)@.prepare_request
                &&& final(self)@.commit_request == (match r {
                    Ok(q) => Some(q@),
                    Err(_) => old(self)@.commit_request,
                })
                &&& result == (match r {
                    Ok(q) => Ok(q@),
                    Err(e) => Err(e),
                })
            }),
    {
        let (phase, result) = authorize_commit_exec(&self.record, self.phase, &current, now);
        self.phase = phase;
        match result {
            Ok(request) => {
                self.commit_request = Some(request.duplicate());
                Ok(request)
            },
            Err(e) => Err(e),
        }
    }

    pub fn accept_commit_completion(&mut self, completion: ReconnectCommitCompletionV1) -> (r: Result<
        ReconnectCommitActionV1,
        ReconnectDurabilityErrorV1,
    >)
        ensures
            spec_v1_accept_commit(old(self)@, completion.spec_request(), completion.spec_disposition()) == (
            final(self)@, match r {
                Ok(a) => Ok(commit_action_view(a)),
                Err(e) => Err(e),
            }),
    {
        if self.phase != ReconnectDurabilityPhaseV1::PendingCommit {
            return Err(ReconnectDurabilityErrorV1::InvalidPhase);
        }
        let matches = match &self.commit_request {
            Some(q) => q.same(&completion.request),
            None => false,
        };
        if !matches {
            return Err(ReconnectDurabilityErrorV1::CompletionMismatch);
        }
        match completion.disposition {
            ReconnectCommitDispositionV1::Unavailable => Ok(ReconnectCommitActionV1::RetrySameRequest(completion.request)),
            ReconnectCommitDispositionV1::Committed | ReconnectCommitDispositionV1::Ambiguous => {
                self.phase = ReconnectDurabilityPhaseV1::ReconciliationRequired;
                Ok(ReconnectCommitActionV1::ReconcileSameAttempt)
            },
            terminal => {
                self.phase = ReconnectDurabilityPhaseV1::Terminal;
                Ok(ReconnectCommitActionV1::Terminal(terminal))
            },
        }
    }

    pub fn accept_reconciliation(
        &mut self,
        snapshot: ReconnectDurableReconciliationSnapshotV1,
        current: ReconnectCurrentAuthorityV1,
    ) -> (r: Result<ReconnectProjectionDecisionV1, ReconnectDurabilityErrorV1>)
        ensures
            spec_v1_reconcile(old(self)@, snapshot@, current@) == (final(self)@, r),
    {
        if self.phase != ReconnectDurabilityPhaseV1::ReconciliationRequired {
            return Err(ReconnectDurabilityErrorV1::InvalidPhase);
        }
        if !snapshot.record.same(&self.record) {
            return Err(ReconnectDurabilityErrorV1::ReconciliationMismatch);
        }
        match snapshot.durable_state {
            DurableReconnectStateV1::Prepared => {
                if snapshot.current_generation.is_some() || snapshot.current_transport_ref.is_some() {
                    return Err(ReconnectDurabilityErrorV1::ReconciliationMismatch);
                }
                self.phase = ReconnectDurabilityPhaseV1::AwaitFinalRevalidation;
                Ok(ReconnectProjectionDecisionV1::AwaitFinalRevalidation)
            },
            DurableReconnectStateV1::Committed => {
                match committed_reconciliation_exec(
                    &self.record,
                    snapshot.current_generation,
                    snapshot.current_transport_ref,
                    &current,
                ) {
                    Err(e) => Err(e),
                    Ok(false) => Err(ReconnectDurabilityErrorV1::ReconciliationMismatch),
                    Ok(true) => {
                        self.phase = ReconnectDurabilityPhaseV1::Completed;
                        let connection = self.record.connection();
                        Ok(
                            ReconnectProjectionDecisionV1::InstallController {
                                generation: connection.candidate(),
                                transport_ref: connection.transport_ref(),
                            },
                        )
                    },
                }
            },
            DurableReconnectStateV1::Terminal => {
                self.phase = ReconnectDurabilityPhaseV1::Terminal;
                Ok(ReconnectProjectionDecisionV1::Terminal)
            },
        }
    }
}


/// The V2 reconnect durability flow of one record; it also spends the
/// attempt budget of the record's control-loss epoch.
#[derive(Debug, Clone, PartialEq, Eq)]
pub struct ReconnectDurabilityFlowV2 {
    record: ReconnectDurabilityRecordV1,
    prepare_request: ReconnectPrepareRequestV2,
    phase: ReconnectDurabilityPhaseV1,
}

pub struct ReconnectDurabilityFlowV2View {
    pub record: ReconnectDurabilityRecordView,
    pub prepare_request: ReconnectPrepareRequestV2View,
    pub phase: ReconnectDurabilityPhaseV1,
}

impl View for ReconnectDurabilityFlowV2 {
    type V = ReconnectDurabilityFlowV2View;

    closed spec fn view(&self) -> ReconnectDurabilityFlowV2View {
        ReconnectDurabilityFlowV2View { record: self.record@, prepare_request: self.prepare_request@, phase: self.phase }
    }
}

pub open spec fn v2_in_phase(f: ReconnectDurabilityFlowV2View, phase: ReconnectDurabilityPhaseV1) -> ReconnectDurabilityFlowV2View {
    ReconnectDurabilityFlowV2View { phase, ..f }
}

/// How a PREPARE completion is recorded in the attempt budget, if at all.
pub open spec fn budget_disposition_v2(d: ReconnectPrepareDispositionV2) -> Option<ReconnectPrepareDispositionV1> {
    match d {
        ReconnectPrepareDispositionV2::Prepared => Some(ReconnectPrepareDispositionV1::Prepared),
        ReconnectPrepareDispositionV2::ExistingPrepared => Some(ReconnectPrepareDispositionV1::ExistingPrepared),
        ReconnectPrepareDispositionV2::RejectedTransportRefCollision => Some(
            ReconnectPrepareDispositionV1::RejectedTransportRefCollision,
        ),
        ReconnectPrepareDispositionV2::RejectedConcurrentPrepared => Some(
            ReconnectPrepareDispositionV1::RejectedConcurrentPrepared,
        ),
        ReconnectPrepareDispositionV2::RejectedStaleAuthority => Some(ReconnectPrepareDispositionV1::RejectedStaleAuthority),
        ReconnectPrepareDispositionV2::ExistingTerminal { disposition } => Some(budget_disposition_for_terminal(disposition)),
        _ => None,
    }
}

/// The phase a PREPARE completion moves the flow to, and the action it asks for.
pub open spec fn v2_prepare_outcome(f: ReconnectDurabilityFlowV2View, d: ReconnectPrepareDispositionV2) -> (ReconnectDurabilityPhaseV1, PrepareActionV2View) {
    match d {
        ReconnectPrepareDispositionV2::Prepared | ReconnectPrepareDispositionV2::ExistingPrepared => (
            ReconnectDurabilityPhaseV1::AwaitFinalRevalidation,
            PrepareActionV2View::AwaitFinalRevalidation,
        ),
        ReconnectPrepareDispositionV2::Unavailable => (f.phase, PrepareActionV2View::RetrySameRequest(f.prepare_request)),
        ReconnectPrepareDispositionV2::Ambiguous => (
            ReconnectDurabilityPhaseV1::ReconciliationRequired,
            PrepareActionV2View::ReconcileSameAttempt,
        ),
        _ => (ReconnectDurabilityPhaseV1::Terminal, PrepareActionV2View::Terminal(d)),
    }
}

pub open spec fn spec_v2_accept_prepare(
    f: ReconnectDurabilityFlowV2View,
    b: ReconnectAttemptBudgetView,
    request: ReconnectPrepareRequestV2View,
    d: ReconnectPrepareDispositionV2,
) -> (ReconnectDurabilityFlowV2View, ReconnectAttemptBudgetView, Result<PrepareActionV2View, ReconnectDurabilityErrorV1>) {
    if f.phase != ReconnectDurabilityPhaseV1::PendingPrepare {
        (f, b, Err(ReconnectDurabilityErrorV1::InvalidPhase))
    } else if request != f.prepare_request {
        (f, b, Err(ReconnectDurabilityErrorV1::CompletionMismatch))
    } else {
        let (phase, action) = v2_prepare_outcome(f, d);
        match budget_disposition_v2(d) {
            None => (v2_in_phase(f, phase), b, Ok(action)),
            Some(bd) => {
                let (b2, res) = spec_accept_prepare(
                    b,
                    f.record.identity.reconnect_attempt_ref,
                    f.record.connection@.transport_ref,
                    bd,
                );
                match res {
                    Err(e) => (f, b2, Err(e)),
                    Ok(()) => (v2_in_phase(f, phase), b2, Ok(action)),
                }
            },
        }
    }
}

pub open spec fn spec_v2_reconcile(
    f: ReconnectDurabilityFlowV2View,
    b: ReconnectAttemptBudgetView,
    record: ReconnectDurabilityRecordView,
    outcome: ReconnectDurableOutcomeV2,
    current: ReconnectCurrentAuthorityView,
) -> (ReconnectDurabilityFlowV2View, ReconnectAttemptBudgetView, Result<ReconnectProjectionDecisionV2, ReconnectDurabilityErrorV1>) {
    if f.phase != ReconnectDurabilityPhaseV1::ReconciliationRequired {
        (f, b, Err(ReconnectDurabilityErrorV1::InvalidPhase))
    } else if record != f.record {
        (f, b, Err(ReconnectDurabilityErrorV1::ReconciliationMismatch))
    } else {
        let attempt = f.record.identity.reconnect_attempt_ref;
        let transport = f.record.connection@.transport_ref;
        match outcome {
            ReconnectDurableOutcomeV2::Prepared => {
                let (b2, res) = spec_accept_prepare(b, attempt, transport, ReconnectPrepareDispositionV1::ExistingPrepared);
                match res {
                    Err(e) => (f, b2, Err(e)),
                    Ok(()) => (
                        v2_in_phase(f, ReconnectDurabilityPhaseV1::AwaitFinalRevalidation),
                        b2,
                        Ok(ReconnectProjectionDecisionV2::AwaitFinalRevalidation),
                    ),
                }
            },
            ReconnectDurableOutcomeV2::Committed { current_generation, current_transport_ref } => match committed_reconciliation(
                f.record,
                Some(current_generation),
                Some(current_transport_ref),
                current,
            ) {
                Err(e) => (f, b, Err(e)),
                Ok(false) => (f, b, Err(ReconnectDurabilityErrorV1::ReconciliationMismatch)),
                Ok(true) => (
                    v2_in_phase(f, ReconnectDurabilityPhaseV1::Completed),
                    b,
                    Ok(
                        ReconnectProjectionDecisionV2::InstallController {
                            generation: current_generation,
                            transport_ref: current_transport_ref,
                        },
                    ),
                ),
            },
            ReconnectDurableOutcomeV2::Terminal { disposition } => {
                let (b2, res) = spec_accept_prepare(b, attempt, transport, budget_disposition_for_terminal(disposition));
                match res {
                    Err(e) => (f, b2, Err(e)),
                    Ok(()) => (
                        v2_in_phase(f, ReconnectDurabilityPhaseV1::Terminal),
                        b2,
                        Ok(ReconnectProjectionDecisionV2::Terminal { disposition }),
                    ),
                }
            },
        }
    }
}

pub open spec fn spec_v2_accept_commit(
    f: ReconnectDurabilityFlowV2View,
    request: ReconnectCommitRequestView,
    disposition: ReconnectCommitDispositionV1,
) -> (ReconnectDurabilityFlowV2View, Result<CommitActionView, ReconnectDurabilityErrorV1>) {
    if f.phase != ReconnectDurabilityPhaseV1::PendingCommit {
        (f, Err(ReconnectDurabilityErrorV1::InvalidPhase))
    } else {
        match authorization_deadline_of(f.record) {
            None => (f, Err(ReconnectDurabilityErrorV1::InvalidRecord)),
            Some(deadline) => if request != (ReconnectCommitRequestView { record: f.record, authorization_deadline: deadline }) {
                (f, Err(ReconnectDurabilityErrorV1::CompletionMismatch))
            } else {
                match disposition {
                    ReconnectCommitDispositionV1::Unavailable => (f, Ok(CommitActionView::RetrySameRequest(request))),
                    ReconnectCommitDispositionV1::Committed | ReconnectCommitDispositionV1::Ambiguous => (
                        v2_in_phase(f, ReconnectDurabilityPhaseV1::ReconciliationRequired),
                        Ok(CommitActionView::ReconcileSameAttempt),
                    ),
                    _ => (v2_in_phase(f, ReconnectDurabilityPhaseV1::Terminal), Ok(CommitActionView::Terminal(disposition))),
                }
            },
        }
    }
}

impl ReconnectDurabilityFlowV2 {
    pub fn begin(
        record: ReconnectDurabilityRecordV1,
        terminal_replacement: Option<TerminalGameSessionReplacementAuthorizationV1>,
    ) -> (r: (Self, ReconnectPrepareRequestV2))
        ensures
            r.0@ == (ReconnectDurabilityFlowV2View {
                record: record@,
                prepare_request: ReconnectPrepareRequestV2View {
                    record: record@,
                    terminal_replacement: optional_replacement_view(terminal_replacement),
                },
                phase: ReconnectDurabilityPhaseV1::PendingPrepare,
            }),
            r.1@ == r.0@.prepare_request,
    {
        let prepare_request = ReconnectPrepareRequestV2 { record: Box::new(record.duplicate()), terminal_replacement };
        let returned = prepare_request.duplicate();
        (Self { record, prepare_request, phase: ReconnectDurabilityPhaseV1::PendingPrepare }, returned)
    }

    pub fn phase(&self) -> (r: ReconnectDurabilityPhaseV1)
        ensures
            r == self@.phase,
    {
        self.phase
    }

    pub fn accept_prepare_completion(
        &mut self,
        completion: ReconnectPrepareCompletionV2,
        budget: &mut ReconnectAttemptBudgetV1,
    ) -> (r: Result<ReconnectPrepareActionV2, ReconnectDurabilityErrorV1>)
        ensures
            spec_v2_accept_prepare(old(self)@, old(budget)@, completion.spec_request(), completion.spec_disposition())
                == (final(self)@, final(budget)@, match r {
                Ok(a) => Ok(prepare_action_v2_view(a)),
                Err(e) => Err(e),
            }),
    {
        if self.phase != ReconnectDurabilityPhaseV1::PendingPrepare {
            return Err(ReconnectDurabilityErrorV1::InvalidPhase);
        }
        if !completion.request.same(&self.prepare_request) {
            return Err(ReconnectDurabilityErrorV1::CompletionMismatch);
        }
        let attempt = self.record.identity().reconnect_attempt_ref();
        let transport_ref = self.record.connection().transport_ref();
        let budget_disposition = match completion.disposition {
            ReconnectPrepareDispositionV2::Prepared => Some(ReconnectPrepareDispositionV1::Prepared),
            ReconnectPrepareDispositionV2::ExistingPrepared => Some(ReconnectPrepareDispositionV1::ExistingPrepared),
            ReconnectPrepareDispositionV2::RejectedTransportRefCollision => Some(
                ReconnectPrepareDispositionV1::RejectedTransportRefCollision,
            ),
            ReconnectPrepareDispositionV2::RejectedConcurrentPrepared => Some(
                ReconnectPrepareDispositionV1::RejectedConcurrentPrepared,
            ),
            ReconnectPrepareDispositionV2::RejectedStaleAuthority => Some(
                ReconnectPrepareDispositionV1::RejectedStaleAuthority,
            ),
            ReconnectPrepareDispositionV2::ExistingTerminal { disposition } => Some(
                v1_budget_disposition_for_terminal(disposition),
            ),
            _ => None,
        };
        if let Some(bd) = budget_disposition {
            if let Err(e) = budget.accept_prepare_completion(attempt, transport_ref, bd) {
                return Err(e);
            }
        }
        match completion.disposition {
            ReconnectPrepareDispositionV2::Prepared | ReconnectPrepareDispositionV2::ExistingPrepared => {
                self.phase = ReconnectDurabilityPhaseV1::AwaitFinalRevalidation;
                Ok(ReconnectPrepareActionV2::AwaitFinalRevalidation)
            },
            ReconnectPrepareDispositionV2::Unavailable => Ok(
                ReconnectPrepareActionV2::RetrySameRequest(self.prepare_request.duplicate()),
            ),
            ReconnectPrepareDispositionV2::Ambiguous => {
                self.phase = ReconnectDurabilityPhaseV1::ReconciliationRequired;
                Ok(ReconnectPrepareActionV2::ReconcileSameAttempt)
            },
            terminal => {
                self.phase = ReconnectDurabilityPhaseV1::Terminal;
                Ok(ReconnectPrepareActionV2::Terminal(terminal))
            },
        }
    }

    pub fn accept_reconciliation(
        &mut self,
        snapshot: ReconnectDurableReconciliationSnapshotV2,
        current: ReconnectCurrentAuthorityV1,
        budget: &mut ReconnectAttemptBudgetV1,
    ) -> (r: Result<ReconnectProjectionDecisionV2, ReconnectDurabilityErrorV1>)
        ensures
            spec_v2_reconcile(old(self)@, old(budget)@, snapshot.spec_record(), snapshot.spec_outcome(), current@) == (
            final(self)@, final(budget)@, r),
    {
        if self.phase != ReconnectDurabilityPhaseV1::ReconciliationRequired {
            return Err(ReconnectDurabilityErrorV1::InvalidPhase);
        }
        if !snapshot.record.same(&self.record) {
            return Err(ReconnectDurabilityErrorV1::ReconciliationMismatch);
        }
        let attempt = self.record.identity().reconnect_attempt_ref();
        let transport_ref = self.record.connection().transport_ref();
        match snapshot.outcome {
            ReconnectDurableOutcomeV2::Prepared => {
                if let Err(e) = budget.accept_prepare_completion(
                    attempt,
                    transport_ref,
                    ReconnectPrepareDispositionV1::ExistingPrepared,
                ) {
                    return Err(e);
                }
                self.phase = ReconnectDurabilityPhaseV1::AwaitFinalRevalidation;
                Ok(ReconnectProjectionDecisionV2::AwaitFinalRevalidation)
            },
            ReconnectDurableOutcomeV2::Committed { current_generation, current_transport_ref } => {
                match committed_reconciliation_exec(
                    &self.record,
                    Some(current_generation),
                    Some(current_transport_ref),
                    &current,
                ) {
                    Err(e) => Err(e),
                    Ok(false) => Err(ReconnectDurabilityErrorV1::ReconciliationMismatch),
                    Ok(true) => {
                        self.phase = ReconnectDurabilityPhaseV1::Completed;
                        Ok(
                            ReconnectProjectionDecisionV2::InstallController {
                                generation: current_generation,
                                transport_ref: current_transport_ref,
                            },
                        )
                    },
                }
            },
            ReconnectDurableOutcomeV2::Terminal { disposition } => {
                if let Err(e) = budget.accept_prepare_completion(
                    attempt,
                    transport_ref,
                    v1_budget_disposition_for_terminal(disposition),
                ) {
                    return Err(e);
                }
                self.phase = ReconnectDurabilityPhaseV1::Terminal;
                Ok(ReconnectProjectionDecisionV2::Terminal { disposition })
            },
        }
    }

    pub fn authorize_commit(&mut self, current: ReconnectCurrentAuthorityV1, now: i64) -> (r: Result<
        ReconnectCommitRequestV1,
        ReconnectDurabilityErrorV1,
    >)
        ensures
            ({
                let (phase, result) = spec_authorize_commit(old(self)@.record, old(self)@.phase, current@, now);
                &&& final(self)@ == v2_in_phase(old(self)@, phase)
                &&& result == (match r {
                    Ok(q) => Ok(q@),
                    Err(e) => Err(e),
                })
            }),
    {
        let (phase, result) = authorize_commit_exec(&self.record, self.phase, &current, now);
        self.phase = phase;
        result
    }

    pub fn accept_commit_completion(&mut self, completion: ReconnectCommitCompletionV1) -> (r: Result<
        ReconnectCommitActionV1,
        ReconnectDurabilityErrorV1,
    >)
        ensures
            spec_v2_accept_commit(old(self)@, completion.spec_request(), completion.spec_disposition()) == (
            final(self)@, match r {
                Ok(a) => Ok(commit_action_view(a)),
                Err(e) => Err(e),
            }),
    {
        if self.phase != ReconnectDurabilityPhaseV1::PendingCommit {
            return Err(ReconnectDurabilityErrorV1::InvalidPhase);
        }
        let deadline = match self.record.authorization_deadline() {
            Ok(d) => d,
            Err(e) => return Err(e),
        };
        if !(completion.request.record.same(&self.record) && completion.request.authorization.authorization_deadline
            == deadline) {
            return Err(ReconnectDurabilityErrorV1::CompletionMismatch);
        }
        match completion.disposition {
            ReconnectCommitDispositionV1::Unavailable => Ok(ReconnectCommitActionV1::RetrySameRequest(completion.request)),
            ReconnectCommitDispositionV1::Committed | ReconnectCommitDispositionV1::Ambiguous => {
                self.phase = ReconnectDurabilityPhaseV1::ReconciliationRequired;
                Ok(ReconnectCommitActionV1::ReconcileSameAttempt)
            },
            terminal => {
                self.phase = ReconnectDurabilityPhaseV1::Terminal;
                Ok(ReconnectCommitActionV1::Terminal(terminal))
            },
        }
    }
}

} // verus!
