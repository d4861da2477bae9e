//! Bounded budgets of reconnect attempts per control-loss epoch, and the
//! retained recovery protection history.
use vstd::prelude::*;
use crate::admission::{ControlLossEpochRefV1, ReconnectAttemptRef, ReconnectDurabilityErrorV1};
use crate::durability::{AuthenticatedTransportRefV1, ReconnectContinuityV1};

verus! {

broadcast use crate::durability::lemma_transport_view, crate::admission::lemma_attempt_ref_view;

/// Most distinct reconnect attempts one control-loss epoch may spend.
pub const RECONNECT_ATTEMPTS_PER_LOSS_EPOCH_V1: usize = 8;

#[derive(Debug, Clone, Copy, PartialEq, Eq, Structural)]
pub enum ReconnectAttemptReservationV1 {
    New,
    Existing,
}

#[derive(Debug, Clone, Copy, PartialEq, Eq, Structural)]
pub enum ReconnectPrepareDispositionV1 {
    Prepared,
    ExistingPrepared,
    RejectedTransportRefCollision,
    RejectedConcurrentPrepared,
    RejectedStaleAuthority,
    AttemptCapacityExceeded,
    ExistingTerminal,
    Unavailable,
    Ambiguous,
    IdempotencyConflict,
}

/// Where one reserved attempt of a budget stands.
#[derive(Debug, Clone, Copy, PartialEq, Eq, Structural)]
pub enum ReconnectAttemptStateV1 {
    Reserved,
    Prepared,
    CollisionTerminal,
    Terminal,
}

/// One reserved attempt: its key, its transport and where it stands.
#[derive(Debug, Clone, Copy, PartialEq, Eq)]
pub struct ReconnectAttemptEntryV1 {
    pub attempt: ReconnectAttemptRef,
    pub transport_ref: AuthenticatedTransportRefV1,
    pub state: ReconnectAttemptStateV1,
}

/// The distinct attempts of one control-loss epoch, in reservation order.
#[derive(Debug, PartialEq, Eq)]
pub struct ReconnectAttemptBudgetV1 {
    control_loss_epoch: ControlLossEpochRefV1,
    entries: Vec<ReconnectAttemptEntryV1>,
}

pub struct ReconnectAttemptBudgetView {
    pub control_loss_epoch: ControlLossEpochRefV1,
    pub entries: Seq<ReconnectAttemptEntryV1>,
}

impl View for ReconnectAttemptBudgetV1 {
    type V = ReconnectAttemptBudgetView;

    closed spec fn view(&self) -> ReconnectAttemptBudgetView {
        ReconnectAttemptBudgetView { control_loss_epoch: self.control_loss_epoch, entries: self.entries@ }
    }
}

/// How many entries of `entries` before `end` are PREPARED.
pub open spec fn prepared_count(entries: Seq<ReconnectAttemptEntryV1>, end: int) -> nat
    decreases end,
{
    if end <= 0 {
        0
    } else {
        prepared_count(entries, end - 1) + if entries[end - 1].state == ReconnectAttemptStateV1::Prepared {
            1nat
        } else {
            0nat
        }
    }
}

/// A budget holds at most the per-epoch number of attempts, each attempt
/// once, and at most one of them PREPARED.
pub open spec fn budget_entries_valid(entries: Seq<ReconnectAttemptEntryV1>) -> bool {
    &&& entries.len() <= RECONNECT_ATTEMPTS_PER_LOSS_EPOCH_V1
    &&& forall|i: int, j: int|
        0 <= i < entries.len() && 0 <= j < entries.len() && i != j ==> #[trigger] entries[i].attempt
            != #[trigger] entries[j].attempt
    &&& forall|i: int, j: int|
        0 <= i < entries.len() && 0 <= j < entries.len() && i != j && #[trigger] entries[i].state
            == ReconnectAttemptStateV1::Prepared ==> #[trigger] entries[j].state != ReconnectAttemptStateV1::Prepared
}

/// The entry index of `attempt`, if the budget holds it.
pub open spec fn index_of_attempt(entries: Seq<ReconnectAttemptEntryV1>, attempt: ReconnectAttemptRef) -> Option<int> {
    if exists|i: int| 0 <= i < entries.len() && #[trigger] entries[i].attempt == attempt {
        Some(choose|i: int| 0 <= i < entries.len() && #[trigger] entries[i].attempt == attempt)
    } else {
        None
    }
}

/// Reserving an attempt: an existing attempt is answered from its entry, a
/// new one takes a slot while slots are left.
pub open spec fn spec_reserve(
    b: ReconnectAttemptBudgetView,
    attempt: ReconnectAttemptRef,
    transport_ref: AuthenticatedTransportRefV1,
) -> (ReconnectAttemptBudgetView, Result<ReconnectAttemptReservationV1, ReconnectDurabilityErrorV1>) {
    match index_of_attempt(b.entries, attempt) {
        Some(i) => if b.entries[i].transport_ref == transport_ref {
            (b, Ok(ReconnectAttemptReservationV1::Existing))
        } else {
            (b, Err(ReconnectDurabilityErrorV1::IdempotencyConflict))
        },
        None => if b.entries.len() >= RECONNECT_ATTEMPTS_PER_LOSS_EPOCH_V1 {
            (b, Err(ReconnectDurabilityErrorV1::AttemptCapacityExceeded))
        } else {
            (
                ReconnectAttemptBudgetView {
                    entries: b.entries.push(
                        ReconnectAttemptEntryV1 { attempt, transport_ref, state: ReconnectAttemptStateV1::Reserved },
                    ),
                    ..b
                },
                Ok(ReconnectAttemptReservationV1::New),
            )
        },
    }
}

/// Where an entry stands after a PREPARE completion of `disposition`.
pub open spec fn state_after_prepare(state: ReconnectAttemptStateV1, disposition: ReconnectPrepareDispositionV1) -> ReconnectAttemptStateV1 {
    match disposition {
        ReconnectPrepareDispositionV1::Prepared | ReconnectPrepareDispositionV1::ExistingPrepared => ReconnectAttemptStateV1::Prepared,
        ReconnectPrepareDispositionV1::RejectedTransportRefCollision => ReconnectAttemptStateV1::CollisionTerminal,
        ReconnectPrepareDispositionV1::Unavailable | ReconnectPrepareDispositionV1::Ambiguous => state,
        _ => ReconnectAttemptStateV1::Terminal,
    }
}

/// Applying a PREPARE completion to the attempt's entry. A second PREPARED
/// attempt is refused.
pub open spec fn spec_accept_prepare(
    b: ReconnectAttemptBudgetView,
    attempt: ReconnectAttemptRef,
    transport_ref: AuthenticatedTransportRefV1,
    disposition: ReconnectPrepareDispositionV1,
) -> (ReconnectAttemptBudgetView, Result<(), ReconnectDurabilityErrorV1>) {
    match index_of_attempt(b.entries, attempt) {
        None => (b, Err(ReconnectDurabilityErrorV1::CompletionMismatch)),
        Some(i) => if b.entries[i].transport_ref != transport_ref {
            (b, Err(ReconnectDurabilityErrorV1::IdempotencyConflict))
        } else if (disposition == ReconnectPrepareDispositionV1::Prepared || disposition
            == ReconnectPrepareDispositionV1::ExistingPrepared) && exists|j: int|
            0 <= j < b.entries.len() && j != i && #[trigger] b.entries[j].state == ReconnectAttemptStateV1::Prepared {
            (b, Err(ReconnectDurabilityErrorV1::ConcurrentPrepared))
        } else {
            (
                ReconnectAttemptBudgetView {
                    entries: b.entries.update(
                        i,
                        ReconnectAttemptEntryV1 { state: state_after_prepare(b.entries[i].state, disposition), ..b.entries[i] },
                    ),
                    ..b
                },
                Ok(()),
            )
        },
    }
}

impl ReconnectAttemptBudgetV1 {
    #[verifier::type_invariant]
    spec fn entries_valid(self) -> bool {
        budget_entries_valid(self.entries@)
    }

    pub fn new(control_loss_epoch: ControlLossEpochRefV1) -> (r: Self)
        ensures
            r@.control_loss_epoch == control_loss_epoch,
            r@.entries.len() == 0,
    {
        Self { control_loss_epoch, entries: Vec::new() }
    }

    pub fn control_loss_epoch(&self) -> (r: ControlLossEpochRefV1)
        ensures
            r == self@.control_loss_epoch,
    {
        self.control_loss_epoch
    }

    pub fn distinct_attempts(&self) -> (r: usize)
        ensures
            r == self@.entries.len(),
    {
        self.entries.len()
    }

    fn find(&self, attempt: ReconnectAttemptRef) -> (r: Option<usize>)
        ensures
            match r {
                Some(i) => index_of_attempt(self@.entries, attempt) == Some(i as int),
                None => index_of_attempt(self@.entries, attempt) is None,
            },
    {
        proof {
            use_type_invariant(self);
        }
        let mut i: usize = 0;
        while i < self.entries.len()
            invariant
                i <= self.entries@.len(),
                budget_entries_valid(self.entries@),
                forall|j: int| 0 <= j < i ==> (#[trigger] self.entries@[j]).attempt != attempt,
            decreases self.entries@.len() - i,
        {
            if self.entries[i].attempt == attempt {
                proof {
                    let k = choose|k: int| 0 <= k < self.entries@.len() && #[trigger] self.entries@[k].attempt == attempt;
                    if k != i {
                        assert(self.entries@[k].attempt != self.entries@[i as int].attempt);
                    }
                }
                return Some(i);
            }
            i = i + 1;
        }
        None
    }

    pub fn reserve(&mut self, attempt: ReconnectAttemptRef, transport_ref: AuthenticatedTransportRefV1) -> (r: Result<
        ReconnectAttemptReservationV1,
        ReconnectDurabilityErrorV1,
    >)
        ensures
            spec_reserve(old(self)@, attempt, transport_ref) == (final(self)@, r),
    {
        if let Some(i) = self.find(attempt) {
            return if self.entries[i].transport_ref == transport_ref {
                Ok(ReconnectAttemptReservationV1::Existing)
            } else {
                Err(ReconnectDurabilityErrorV1::IdempotencyConflict)
            };
        }
        if self.entries.len() >= RECONNECT_ATTEMPTS_PER_LOSS_EPOCH_V1 {
            return Err(ReconnectDurabilityErrorV1::AttemptCapacityExceeded);
        }
        proof {
            use_type_invariant(&*self);
        }
        let entry = ReconnectAttemptEntryV1 { attempt, transport_ref, state: ReconnectAttemptStateV1::Reserved };
        let ghost before = self.entries@;
        let mut entries: Vec<ReconnectAttemptEntryV1> = Vec::new();
        std::mem::swap(&mut entries, &mut self.entries);
        entries.push(entry);
        proof {
            assert(entries@ == before.push(entry));
            assert forall|i: int, j: int|
                0 <= i < entries@.len() && 0 <= j < entries@.len() && i != j implies #[trigger] entries@[i].attempt
                    != #[trigger] entries@[j].attempt by {
                if i < before.len() && j < before.len() {
                    assert(before[i].attempt != before[j].attempt);
                }
            }
            assert forall|i: int, j: int|
                0 <= i < entries@.len() && 0 <= j < entries@.len() && i != j && #[trigger] entries@[i].state
                    == ReconnectAttemptStateV1::Prepared implies #[trigger] entries@[j].state
                    != ReconnectAttemptStateV1::Prepared by {
                if i < before.len() && j < before.len() {
                    assert(before[i].state == ReconnectAttemptStateV1::Prepared);
                }
            }
        }
        self.entries = entries;
        Ok(ReconnectAttemptReservationV1::New)
    }

    fn other_prepared(&self, index: usize) -> (r: bool)
        requires
            index < self@.entries.len(),
        ensures
            r == exists|j: int|
                0 <= j < self@.entries.len() && j != index && #[trigger] self@.entries[j].state
                    == ReconnectAttemptStateV1::Prepared,
    {
        let mut j: usize = 0;
        while j < self.entries.len()
            invariant
                j <= self.entries@.len(),
                forall|k: int|
                    0 <= k < j && k != index ==> (#[trigger] self.entries@[k]).state != ReconnectAttemptStateV1::Prepared,
            decreases self.entries@.len() - j,
        {
            if j != index && self.entries[j].state == ReconnectAttemptStateV1::Prepared {
                return true;
            }
            j = j + 1;
        }
        false
    }

    pub fn accept_prepare_completion(
        &mut self,
        attempt: ReconnectAttemptRef,
        transport_ref: AuthenticatedTransportRefV1,
        disposition: ReconnectPrepareDispositionV1,
    ) -> (r: Result<(), ReconnectDurabilityErrorV1>)
        ensures
            spec_accept_prepare(old(self)@, attempt, transport_ref, disposition) == (final(self)@, r),
    {
        let index = match self.find(attempt) {
            Some(i) => i,
            None => return Err(ReconnectDurabilityErrorV1::CompletionMismatch),
        };
        if self.entries[index].transport_ref != transport_ref {
            return Err(ReconnectDurabilityErrorV1::IdempotencyConflict);
        }
        let prepares = match disposition {
            ReconnectPrepareDispositionV1::Prepared | ReconnectPrepareDispositionV1::ExistingPrepared => true,
            _ => false,
        };
        if prepares && self.other_prepared(index) {
            return Err(ReconnectDurabilityErrorV1::ConcurrentPrepared);
        }
        let old_entry = self.entries[index];
        let state = match disposition {
            ReconnectPrepareDispositionV1::Prepared | ReconnectPrepareDispositionV1::ExistingPrepared => ReconnectAttemptStateV1::Prepared,
            ReconnectPrepareDispositionV1::RejectedTransportRefCollision => ReconnectAttemptStateV1::CollisionTerminal,
            ReconnectPrepareDispositionV1::Unavailable | ReconnectPrepareDispositionV1::Ambiguous => old_entry.state,
            _ => ReconnectAttemptStateV1::Terminal,
        };
        proof {
            use_type_invariant(&*self);
        }
        let ghost before = self.entries@;
        let mut entries: Vec<ReconnectAttemptEntryV1> = Vec::new();
        std::mem::swap(&mut entries, &mut self.entries);
        entries.set(index, ReconnectAttemptEntryV1 { state, ..old_entry });
        proof {
            assert forall|i: int, j: int|
                0 <= i < entries@.len() && 0 <= j < entries@.len() && i != j implies #[trigger] entries@[i].attempt
                    != #[trigger] entries@[j].attempt by {
                assert(before[i].attempt != before[j].attempt);
            }
            assert forall|i: int, j: int|
                0 <= i < entries@.len() && 0 <= j < entries@.len() && i != j && #[trigger] entries@[i].state
                    == ReconnectAttemptStateV1::Prepared implies #[trigger] entries@[j].state
                    != ReconnectAttemptStateV1::Prepared by {
                if i != index && j != index {
                    assert(before[i].state == ReconnectAttemptStateV1::Prepared);
                } else if i == index {
                    if state == ReconnectAttemptStateV1::Prepared && !prepares {
                        assert(before[i].state == ReconnectAttemptStateV1::Prepared);
                    }
                } else {
                    if state == ReconnectAttemptStateV1::Prepared && !prepares {
                        assert(before[j].state == ReconnectAttemptStateV1::Prepared);
                        assert(before[i].state == ReconnectAttemptStateV1::Prepared);
                    }
                }
            }
        }
        self.entries = entries;
        Ok(())
    }

    /// After a transport collision, a new attempt may replace the colliding
    /// one only while capacity is left and nothing is PREPARED.
    pub fn replacement_allowed_after_collision(&self, attempt: ReconnectAttemptRef) -> (r: bool)
        ensures
            r == (self@.entries.len() < RECONNECT_ATTEMPTS_PER_LOSS_EPOCH_V1 && !(exists|j: int|
                0 <= j < self@.entries.len() && #[trigger] self@.entries[j].state == ReconnectAttemptStateV1::Prepared)
                && exists|j: int|
                0 <= j < self@.entries.len() && #[trigger] self@.entries[j].attempt == attempt && self@.entries[j].state
                    == ReconnectAttemptStateV1::CollisionTerminal),
    {
        if self.entries.len() >= RECONNECT_ATTEMPTS_PER_LOSS_EPOCH_V1 {
            return false;
        }
        let mut j: usize = 0;
        while j < self.entries.len()
            invariant
                j <= self.entries@.len(),
                forall|k: int| 0 <= k < j ==> (#[trigger] self.entries@[k]).state != ReconnectAttemptStateV1::Prepared,
            decreases self.entries@.len() - j,
        {
            if self.entries[j].state == ReconnectAttemptStateV1::Prepared {
                return false;
            }
            j = j + 1;
        }
        let mut k: usize = 0;
        while k < self.entries.len()
            invariant
                k <= self.entries@.len(),
                self.entries@.len() < RECONNECT_ATTEMPTS_PER_LOSS_EPOCH_V1,
                forall|m: int| 0 <= m < self.entries@.len() ==> (#[trigger] self.entries@[m]).state != ReconnectAttemptStateV1::Prepared,
                forall|m: int|
                    0 <= m < k ==> !((#[trigger] self.entries@[m]).attempt == attempt && self.entries@[m].state
                        == ReconnectAttemptStateV1::CollisionTerminal),
            decreases self.entries@.len() - k,
        {
            if self.entries[k].attempt == attempt && self.entries[k].state == ReconnectAttemptStateV1::CollisionTerminal {
                return true;
            }
            k = k + 1;
        }
        false
    }
}


/// Historical finality of an actor's control-loss epoch.
#[derive(Debug, Clone, Copy, PartialEq, Eq, Structural)]
pub enum RecoveryEpochStateV1 {
    Open,
    Restored,
    Retired,
}

#[derive(Debug, Clone, Copy, PartialEq, Eq, Structural)]
pub enum RetainedRecoveryAttemptDispositionV1 {
    Committed,
    Prepared,
    TransportCollision,
    Terminal,
}

/// One retained budget entry: a historical fact, not live authority.
#[derive(Debug, Clone, Copy, PartialEq, Eq)]
pub struct RetainedRecoveryAttemptV1 {
    pub attempt: ReconnectAttemptRef,
    pub transport: AuthenticatedTransportRefV1,
    pub disposition: RetainedRecoveryAttemptDispositionV1,
}

/// The complete retained attempt budget of one actor-bound epoch.
#[derive(Debug, Clone, PartialEq, Eq)]
pub struct RetainedRecoveryBudgetV1 {
    epoch: ControlLossEpochRefV1,
    state: RecoveryEpochStateV1,
    entries: Vec<RetainedRecoveryAttemptV1>,
}

pub struct RetainedRecoveryBudgetView {
    pub epoch: ControlLossEpochRefV1,
    pub state: RecoveryEpochStateV1,
    pub entries: Seq<RetainedRecoveryAttemptV1>,
}

impl View for RetainedRecoveryBudgetV1 {
    type V = RetainedRecoveryBudgetView;

    closed spec fn view(&self) -> RetainedRecoveryBudgetView {
        RetainedRecoveryBudgetView { epoch: self.epoch, state: self.state, entries: self.entries@ }
    }
}

/// How many of the first `end` retained entries are committed.
pub open spec fn committed_count(entries: Seq<RetainedRecoveryAttemptV1>, end: int) -> nat
    decreases end,
{
    if end <= 0 {
        0
    } else {
        committed_count(entries, end - 1) + if entries[end - 1].disposition
            == RetainedRecoveryAttemptDispositionV1::Committed {
            1nat
        } else {
            0nat
        }
    }
}

/// A retained budget may be restored only when it is known complete, holds
/// at most the per-epoch attempts, each once, at most one of them committed,
/// and none committed while the epoch is still open.
pub open spec fn retained_budget_valid(
    state: RecoveryEpochStateV1,
    complete: bool,
    entries: Seq<RetainedRecoveryAttemptV1>,
) -> bool {
    &&& complete
    &&& entries.len() <= RECONNECT_ATTEMPTS_PER_LOSS_EPOCH_V1
    &&& committed_count(entries, entries.len() as int) <= 1
    &&& !(state == RecoveryEpochStateV1::Open && committed_count(entries, entries.len() as int) > 0)
    &&& forall|i: int, j: int| 0 <= j < i < entries.len() ==> #[trigger] entries[j].attempt != #[trigger] entries[i].attempt
}

/// The first retained entry of `attempt`, if any.
pub open spec fn first_retained_index(entries: Seq<RetainedRecoveryAttemptV1>, attempt: ReconnectAttemptRef) -> Option<int> {
    if exists|i: int|
        0 <= i < entries.len() && #[trigger] entries[i].attempt == attempt && forall|j: int|
            0 <= j < i ==> #[trigger] entries[j].attempt != attempt {
        Some(
            choose|i: int|
                0 <= i < entries.len() && #[trigger] entries[i].attempt == attempt && forall|j: int|
                    0 <= j < i ==> #[trigger] entries[j].attempt != attempt,
        )
    } else {
        None
    }
}

/// Whether a candidate attempt may still be spent from a retained budget.
pub open spec fn spec_check_candidate(
    b: RetainedRecoveryBudgetView,
    attempt: ReconnectAttemptRef,
    transport: AuthenticatedTransportRefV1,
) -> Result<ReconnectAttemptReservationV1, ReconnectDurabilityErrorV1> {
    if b.state != RecoveryEpochStateV1::Open {
        Err(ReconnectDurabilityErrorV1::StaleAuthority)
    } else {
        match first_retained_index(b.entries, attempt) {
            Some(i) => if b.entries[i].transport != transport {
                Err(ReconnectDurabilityErrorV1::IdempotencyConflict)
            } else if b.entries[i].disposition == RetainedRecoveryAttemptDispositionV1::Prepared {
                Ok(ReconnectAttemptReservationV1::Existing)
            } else {
                Err(ReconnectDurabilityErrorV1::StaleAuthority)
            },
            None => if b.entries.len() >= RECONNECT_ATTEMPTS_PER_LOSS_EPOCH_V1 {
                Err(ReconnectDurabilityErrorV1::AttemptCapacityExceeded)
            } else {
                Ok(ReconnectAttemptReservationV1::New)
            },
        }
    }
}

/// The budget once a candidate is reserved for PREPARE: a new attempt is
/// appended as PREPARED, an existing PREPARED one is kept.
pub open spec fn spec_prepared_budget(
    b: RetainedRecoveryBudgetView,
    attempt: ReconnectAttemptRef,
    transport: AuthenticatedTransportRefV1,
) -> Result<RetainedRecoveryBudgetView, ReconnectDurabilityErrorV1> {
    match spec_check_candidate(b, attempt, transport) {
        Err(e) => Err(e),
        Ok(ReconnectAttemptReservationV1::New) => Ok(
            RetainedRecoveryBudgetView {
                entries: b.entries.push(
                    RetainedRecoveryAttemptV1 {
                        attempt,
                        transport,
                        disposition: RetainedRecoveryAttemptDispositionV1::Prepared,
                    },
                ),
                ..b
            },
        ),
        Ok(ReconnectAttemptReservationV1::Existing) => Ok(b),
    }
}

/// The budget once `attempt` won: the epoch is restored and the attempt's
/// first entry is committed.
pub open spec fn spec_commit_winner(b: RetainedRecoveryBudgetView, attempt: ReconnectAttemptRef) -> Result<
    RetainedRecoveryBudgetView,
    ReconnectDurabilityErrorV1,
> {
    match first_retained_index(b.entries, attempt) {
        None => Err(ReconnectDurabilityErrorV1::InvalidRecord),
        Some(i) => Ok(
            RetainedRecoveryBudgetView {
                state: RecoveryEpochStateV1::Restored,
                entries: b.entries.update(
                    i,
                    RetainedRecoveryAttemptV1 { disposition: RetainedRecoveryAttemptDispositionV1::Committed, ..b.entries[i] },
                ),
                ..b
            },
        ),
    }
}

/// Whether some retained entry is a committed attempt on `transport`.
pub open spec fn committed_on(entries: Seq<RetainedRecoveryAttemptV1>, transport: Option<AuthenticatedTransportRefV1>) -> bool {
    exists|i: int|
        0 <= i < entries.len() && (#[trigger] entries[i]).disposition == RetainedRecoveryAttemptDispositionV1::Committed
            && Some(entries[i].transport) == transport
}

fn copy_retained(v: &Vec<RetainedRecoveryAttemptV1>) -> (r: Vec<RetainedRecoveryAttemptV1>)
    ensures
        r@ == v@,
{
    let mut r: Vec<RetainedRecoveryAttemptV1> = Vec::new();
    let mut i: usize = 0;
    while i < v.len()
        invariant
            i <= v@.len(),
            r@ == v@.subrange(0, i as int),
        decreases v@.len() - i,
    {
        r.push(v[i]);
        i = i + 1;
        assert(r@ =~= v@.subrange(0, i as int));
    }
    assert(r@ =~= v@);
    r
}

fn same_retained_entry(a: RetainedRecoveryAttemptV1, b: RetainedRecoveryAttemptV1) -> (r: bool)
    ensures
        r == (a == b),
{
    a.attempt == b.attempt && a.transport == b.transport && a.disposition == b.disposition
}

impl RetainedRecoveryBudgetV1 {
    pub fn restore(
        epoch: ControlLossEpochRefV1,
        state: RecoveryEpochStateV1,
        complete: bool,
        entries: Vec<RetainedRecoveryAttemptV1>,
    ) -> (r: Result<Self, ReconnectDurabilityErrorV1>)
        ensures
            r is Ok <==> retained_budget_valid(state, complete, entries@),
            r matches Ok(b) ==> b@ == (RetainedRecoveryBudgetView { epoch, state, entries: entries@ }),
            r matches Err(e) ==> e == ReconnectDurabilityErrorV1::InvalidRecord,
    {
        if !complete || entries.len() > RECONNECT_ATTEMPTS_PER_LOSS_EPOCH_V1 {
            return Err(ReconnectDurabilityErrorV1::InvalidRecord);
        }
        let mut committed: usize = 0;
        let mut i: usize = 0;
        while i < entries.len()
            invariant
                i <= entries@.len(),
                entries@.len() <= RECONNECT_ATTEMPTS_PER_LOSS_EPOCH_V1,
                committed == committed_count(entries@, i as int),
                committed <= i,
                forall|a: int, b: int| 0 <= b < a < i ==> #[trigger] entries@[b].attempt != #[trigger] entries@[a].attempt,
            decreases entries@.len() - i,
        {
            if entries[i].disposition == RetainedRecoveryAttemptDispositionV1::Committed {
                committed = committed + 1;
            }
            let mut j: usize = 0;
            while j < i
                invariant
                    i < entries@.len(),
                    j <= i,
                    forall|b: int| 0 <= b < j ==> (#[trigger] entries@[b]).attempt != entries@[i as int].attempt,
                decreases i - j,
            {
                if entries[j].attempt == entries[i].attempt {
                    return Err(ReconnectDurabilityErrorV1::InvalidRecord);
                }
                j = j + 1;
            }
            i = i + 1;
        }
        if committed > 1 || (state == RecoveryEpochStateV1::Open && committed > 0) {
            return Err(ReconnectDurabilityErrorV1::InvalidRecord);
        }
        Ok(Self { epoch, state, entries })
    }

    pub fn epoch(&self) -> (r: ControlLossEpochRefV1)
        ensures
            r == self@.epoch,
    {
        self.epoch
    }

    pub fn state(&self) -> (r: RecoveryEpochStateV1)
        ensures
            r == self@.state,
    {
        self.state
    }

    pub fn entries(&self) -> (r: &[RetainedRecoveryAttemptV1])
        ensures
            r@ == self@.entries,
    {
        self.entries.as_slice()
    }

    pub fn check_candidate(&self, attempt: ReconnectAttemptRef, transport: AuthenticatedTransportRefV1) -> (r: Result<
        ReconnectAttemptReservationV1,
        ReconnectDurabilityErrorV1,
    >)
        ensures
            r == spec_check_candidate(self@, attempt, transport),
    {
        if self.state != RecoveryEpochStateV1::Open {
            return Err(ReconnectDurabilityErrorV1::StaleAuthority);
        }
        let mut i: usize = 0;
        while i < self.entries.len()
            invariant
                i <= self.entries@.len(),
                self@.state == RecoveryEpochStateV1::Open,
                forall|j: int| 0 <= j < i ==> (#[trigger] self.entries@[j]).attempt != attempt,
            decreases self.entries@.len() - i,
        {
            let entry = self.entries[i];
            if entry.attempt == attempt {
                proof {
                    let s = self.entries@;
                    assert(0 <= i < s.len() && s[i as int].attempt == attempt && forall|j: int|
                        0 <= j < i ==> #[trigger] s[j].attempt != attempt);
                    let k = choose|k: int|
                        0 <= k < s.len() && #[trigger] s[k].attempt == attempt && forall|j: int|
                            0 <= j < k ==> #[trigger] s[j].attempt != attempt;
                    if k < i {
                        assert(s[k].attempt != attempt);
                    }
                    if k > i {
                        assert(s[i as int].attempt != attempt);
                    }
                }
                if entry.transport != transport {
                    return Err(ReconnectDurabilityErrorV1::IdempotencyConflict);
                }
                return match entry.disposition {
                    RetainedRecoveryAttemptDispositionV1::Prepared => Ok(ReconnectAttemptReservationV1::Existing),
                    _ => Err(ReconnectDurabilityErrorV1::StaleAuthority),
                };
            }
            i = i + 1;
        }
        if self.entries.len() >= RECONNECT_ATTEMPTS_PER_LOSS_EPOCH_V1 {
            return Err(ReconnectDurabilityErrorV1::AttemptCapacityExceeded);
        }
        Ok(ReconnectAttemptReservationV1::New)
    }

    /// Whether some retained attempt committed on `transport`.
    pub fn has_committed_on(&self, transport: Option<AuthenticatedTransportRefV1>) -> (r: bool)
        ensures
            r == committed_on(self@.entries, transport),
    {
        let mut i: usize = 0;
        while i < self.entries.len()
            invariant
                i <= self.entries@.len(),
                forall|j: int|
                    0 <= j < i ==> !((#[trigger] self.entries@[j]).disposition
                        == RetainedRecoveryAttemptDispositionV1::Committed && Some(self.entries@[j].transport)
                        == transport),
            decreases self.entries@.len() - i,
        {
            let entry = self.entries[i];
            let on_transport = match transport {
                Some(t) => entry.transport == t,
                None => false,
            };
            if entry.disposition == RetainedRecoveryAttemptDispositionV1::Committed && on_transport {
                return true;
            }
            i = i + 1;
        }
        false
    }

    fn first_index(&self, attempt: ReconnectAttemptRef) -> (r: Option<usize>)
        ensures
            match r {
                Some(i) => first_retained_index(self@.entries, attempt) == Some(i as int),
                None => first_retained_index(self@.entries, attempt) is None,
            },
    {
        let mut i: usize = 0;
        while i < self.entries.len()
            invariant
                i <= self.entries@.len(),
                forall|j: int| 0 <= j < i ==> (#[trigger] self.entries@[j]).attempt != attempt,
            decreases self.entries@.len() - i,
        {
            if self.entries[i].attempt == attempt {
                proof {
                    let s = self.entries@;
                    assert(0 <= i < s.len() && s[i as int].attempt == attempt && forall|j: int|
                        0 <= j < i ==> #[trigger] s[j].attempt != attempt);
                    let k = choose|k: int|
                        0 <= k < s.len() && #[trigger] s[k].attempt == attempt && forall|j: int|
                            0 <= j < k ==> #[trigger] s[j].attempt != attempt;
                    if k < i {
                        assert(s[k].attempt != attempt);
                    }
                    if k > i {
                        assert(s[i as int].attempt != attempt);
                    }
                }
                return Some(i);
            }
            i = i + 1;
        }
        None
    }

    /// This budget with `attempt` on `transport` reserved as PREPARED, when
    /// the candidate may still be spent: a new attempt is appended, an
    /// existing PREPARED one is kept.
    pub fn with_candidate_prepared(&self, attempt: ReconnectAttemptRef, transport: AuthenticatedTransportRefV1) -> (r: Result<
        Self,
        ReconnectDurabilityErrorV1,
    >)
        ensures
            match r {
                Ok(b) => spec_prepared_budget(self@, attempt, transport) == Ok::<
                    RetainedRecoveryBudgetView,
                    ReconnectDurabilityErrorV1,
                >(b@),
                Err(e) => spec_prepared_budget(self@, attempt, transport) == Err::<
                    RetainedRecoveryBudgetView,
                    ReconnectDurabilityErrorV1,
                >(e),
            },
    {
        let reservation = match self.check_candidate(attempt, transport) {
            Err(e) => return Err(e),
            Ok(r) => r,
        };
        let mut next = self.duplicate();
        if reservation == ReconnectAttemptReservationV1::New {
            next.entries.push(
                RetainedRecoveryAttemptV1 {
                    attempt,
                    transport,
                    disposition: RetainedRecoveryAttemptDispositionV1::Prepared,
                },
            );
        }
        Ok(next)
    }

    /// This budget restored, with the first entry of `attempt` committed.
    pub fn with_winner_committed(self, attempt: ReconnectAttemptRef) -> (r: Result<Self, ReconnectDurabilityErrorV1>)
        ensures
            match r {
                Ok(b) => spec_commit_winner(self@, attempt) == Ok::<
                    RetainedRecoveryBudgetView,
                    ReconnectDurabilityErrorV1,
                >(b@),
                Err(e) => spec_commit_winner(self@, attempt) == Err::<
                    RetainedRecoveryBudgetView,
                    ReconnectDurabilityErrorV1,
                >(e),
            },
    {
        let index = match self.first_index(attempt) {
            None => return Err(ReconnectDurabilityErrorV1::InvalidRecord),
            Some(i) => i,
        };
        let mut next = self;
        let entry = next.entries[index];
        next.entries.set(
            index,
            RetainedRecoveryAttemptV1 { disposition: RetainedRecoveryAttemptDispositionV1::Committed, ..entry },
        );
        next.state = RecoveryEpochStateV1::Restored;
        Ok(next)
    }

    /// An identical copy of this budget.
    pub fn duplicate(&self) -> (r: Self)
        ensures
            r@ == self@,
    {
        Self { epoch: self.epoch, state: self.state, entries: copy_retained(&self.entries) }
    }

    /// Whether two budgets are the same.
    pub fn same(&self, other: &Self) -> (r: bool)
        ensures
            r == (self@ == other@),
    {
        broadcast use crate::admission::lemma_control_loss_epoch_view;

        if !(self.epoch == other.epoch && self.state == other.state && self.entries.len()
            == other.entries.len()) {
            return false;
        }
        let mut i: usize = 0;
        while i < self.entries.len()
            invariant
                self.entries@.len() == other.entries@.len(),
                i <= self.entries@.len(),
                forall|j: int| 0 <= j < i ==> self.entries@[j] == other.entries@[j],
            decreases self.entries@.len() - i,
        {
            if !same_retained_entry(self.entries[i], other.entries[i]) {
                return false;
            }
            i = i + 1;
        }
        assert(self.entries@ =~= other.entries@);
        true
    }
}

/// Closed historical timing of a recovery attempt.
#[derive(Debug, Clone, Copy, PartialEq, Eq, Structural)]
pub enum RecoveryTimingV2 {
    SameSession(ReconnectContinuityV1),
    TerminalSessionPostGrace { original_grace_deadline: i64, attempt_deadline: i64 },
}

/// The timing admits an attempt at `now`.
pub open spec fn timing_admits(t: RecoveryTimingV2, now: i64) -> bool {
    match t {
        RecoveryTimingV2::SameSession(c) => now >= 0 && now <= c@.prepared_deadline && now
            <= c@.original_grace_deadline,
        RecoveryTimingV2::TerminalSessionPostGrace { original_grace_deadline, attempt_deadline } => original_grace_deadline
            > 0 && attempt_deadline > original_grace_deadline && now > original_grace_deadline && now
            <= attempt_deadline,
    }
}

impl RecoveryTimingV2 {
    pub fn validate_at(self, now: i64) -> (r: Result<(), ReconnectDurabilityErrorV1>)
        ensures
            r is Ok <==> timing_admits(self, now),
            r matches Err(e) ==> e == ReconnectDurabilityErrorV1::StaleAuthority,
    {
        let valid = match self {
            RecoveryTimingV2::SameSession(continuity) => now >= 0 && now <= continuity.prepared_deadline() && now
                <= continuity.original_grace_deadline(),
            RecoveryTimingV2::TerminalSessionPostGrace { original_grace_deadline, attempt_deadline } => original_grace_deadline
                > 0 && attempt_deadline > original_grace_deadline && now > original_grace_deadline && now
                <= attempt_deadline,
        };
        if valid {
            Ok(())
        } else {
            Err(ReconnectDurabilityErrorV1::StaleAuthority)
        }
    }
}

/// Retained protection history, never inferred from an empty session row.
#[derive(Debug, Clone, Copy, PartialEq, Eq, Structural)]
pub enum RecoveryProtectionUseV1 {
    NotEntitled,
    Unused { entitlement_generation: u64 },
    Activated { entitlement_generation: u64, activated_at: i64, deadline: i64 },
}

/// Source-authored stable-control evidence.
#[derive(Debug, Clone, Copy, PartialEq, Eq, Structural)]
pub enum RecoveryProtectionRearmV1 {
    NotRearmed { generation: u64, stable_control_started_at: Option<i64>, accepted_deadline: Option<i64> },
    Satisfied { generation: u64, established_at: i64 },
}

#[derive(Debug, Clone, Copy, PartialEq, Eq, Structural)]
pub struct RecoveryProtectionContinuityV1 {
    pub usage: RecoveryProtectionUseV1,
    pub rearm: RecoveryProtectionRearmV1,
}

/// Protection history that is consistent at `now`: an activation lasts
/// exactly four seconds and nothing happened after `now`.
pub open spec fn protection_valid(p: RecoveryProtectionContinuityV1, now: i64) -> bool {
    let usage_valid = match p.usage {
        RecoveryProtectionUseV1::NotEntitled => true,
        RecoveryProtectionUseV1::Unused { entitlement_generation } => entitlement_generation > 0,
        RecoveryProtectionUseV1::Activated { entitlement_generation, activated_at, deadline } => entitlement_generation
            > 0 && activated_at >= 0 && activated_at <= now && activated_at + 4 == deadline,
    };
    let rearm_valid = match p.rearm {
        RecoveryProtectionRearmV1::NotRearmed { generation, stable_control_started_at, accepted_deadline } => generation
            > 0 && match (stable_control_started_at, accepted_deadline) {
            (None, None) => true,
            (Some(start), Some(deadline)) => start >= 0 && start <= now && deadline > start,
            _ => false,
        },
        RecoveryProtectionRearmV1::Satisfied { generation, established_at } => generation > 0 && established_at >= 0
            && established_at <= now,
    };
    usage_valid && rearm_valid
}

impl RecoveryProtectionContinuityV1 {
    /// Whether the protection history is consistent at `now`.
    pub fn validate(self, now: i64) -> (r: Result<(), ReconnectDurabilityErrorV1>)
        ensures
            r is Ok <==> protection_valid(self, now),
            r matches Err(e) ==> e == ReconnectDurabilityErrorV1::InvalidRecord,
    {
        let usage_valid = match self.usage {
            RecoveryProtectionUseV1::NotEntitled => true,
            RecoveryProtectionUseV1::Unused { entitlement_generation } => entitlement_generation > 0,
            RecoveryProtectionUseV1::Activated { entitlement_generation, activated_at, deadline } => entitlement_generation
                > 0 && activated_at >= 0 && activated_at <= now && activated_at <= i64::MAX - 4 && activated_at + 4
                == deadline,
        };
        let rearm_valid = match self.rearm {
            RecoveryProtectionRearmV1::NotRearmed { generation, stable_control_started_at, accepted_deadline } => generation
                > 0 && match (stable_control_started_at, accepted_deadline) {
                (None, None) => true,
                (Some(start), Some(deadline)) => start >= 0 && start <= now && deadline > start,
                _ => false,
            },
            RecoveryProtectionRearmV1::Satisfied { generation, established_at } => generation > 0 && established_at >= 0
                && established_at <= now,
        };
        if usage_valid && rearm_valid {
            Ok(())
        } else {
            Err(ReconnectDurabilityErrorV1::InvalidRecord)
        }
    }
}

} // verus!
