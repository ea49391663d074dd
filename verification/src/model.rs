//! The orchestrator as a mathematical machine: a state, and the function
//! that takes a state and an event to the next state and a directive.

use crate::backoff::{least, Policy};
use crate::errors::{ConfigError, Failure, StateError};
use crate::kind::{rank, ResourceKind, PLAN_LEN};
use crate::ledger::LedgerView;
use crate::outputs::OutputsView;
use crate::plan::{last_recorded, next_missing, planned_between};
use crate::protocol::{ActionView, DirectiveView, EventView, Goal, Outcome, PhaseView};
use vstd::prelude::*;

verus! {

/// The state of a run.
pub struct OrchestratorView {
    pub ledger: LedgerView,
    /// Whether the fleet has an anchor tier.
    pub anchors: bool,
    pub policy: Policy,
    pub goal: Goal,
    pub phase: PhaseView,
    /// Whether the run is to stop at the next step boundary.
    pub cancel: bool,
}

/// A directive that passes over no step.
pub open spec fn plainly(persist: bool, action: ActionView) -> DirectiveView {
    DirectiveView { persist, skipped: Seq::empty(), action }
}

impl OrchestratorView {
    /// The state before a run.
    pub open spec fn fresh(ledger: LedgerView, anchors: bool, policy: Policy, goal: Goal) -> Self {
        OrchestratorView { ledger, anchors, policy, goal, phase: PhaseView::Idle, cancel: false }
    }

    /// Whether a run may take steps on the ledger: it is valid and the
    /// caller's identity is known.
    pub open spec fn runnable(self) -> bool {
        self.ledger.usable() && self.ledger.identity is Some
    }

    /// The pause before the first retry, as the phase keeps it.
    pub open spec fn first_delay(self) -> u64 {
        self.policy.first() as u64
    }

    /// The state in the given phase.
    pub open spec fn at(self, phase: PhaseView) -> Self {
        OrchestratorView { phase, ..self }
    }

    /// The run ends.
    pub open spec fn finish(self, outcome: Outcome, persist: bool) -> (Self, DirectiveView) {
        (self.at(PhaseView::Finished(outcome)), plainly(persist, ActionView::Finish(outcome)))
    }

    /// The run ends on a failed step. The ledger is saved as it stands.
    pub open spec fn fail(self, failure: Failure) -> (Self, DirectiveView) {
        self.finish(Outcome::Failed(failure), true)
    }

    /// Between two steps: the run stops if it was cancelled; else it turns
    /// to the next step, passing over those that are done, or ends where
    /// none is left. `from` is the position in the plan from which steps are
    /// passed over; `persist` says whether the ledger changed.
    pub open spec fn decide(self, from: int, persist: bool) -> (Self, DirectiveView) {
        if self.cancel {
            self.finish(Outcome::Cancelled, true)
        } else {
            match self.goal {
                Goal::Provision => match next_missing(self.ledger, self.anchors) {
                    None => (
                        self.at(PhaseView::Finished(Outcome::Done)),
                        DirectiveView {
                            persist,
                            skipped: planned_between(self.anchors, from, PLAN_LEN as int),
                            action: ActionView::Finish(Outcome::Done),
                        },
                    ),
                    Some(kind) => {
                        let skipped = planned_between(self.anchors, from, rank(kind));
                        if kind == ResourceKind::Bucket {
                            (
                                self.at(
                                    PhaseView::Probing { attempt: 1, delay: self.first_delay() },
                                ),
                                DirectiveView {
                                    persist,
                                    skipped,
                                    action: ActionView::ProbeBucket { delay: 0 },
                                },
                            )
                        } else {
                            (
                                self.at(
                                    PhaseView::Creating {
                                        kind,
                                        attempt: 1,
                                        delay: self.first_delay(),
                                    },
                                ),
                                DirectiveView {
                                    persist,
                                    skipped,
                                    action: ActionView::Create { kind, delay: 0 },
                                },
                            )
                        }
                    },
                },
                Goal::Teardown => match last_recorded(self.ledger) {
                    None => self.finish(Outcome::Done, persist),
                    Some(kind) => (
                        self.at(
                            PhaseView::Deleting { kind, attempt: 1, delay: self.first_delay() },
                        ),
                        plainly(persist, ActionView::Delete { kind, delay: 0 }),
                    ),
                },
            }
        }
    }

    /// The run begins: the ledger is validated and the identity looked for
    /// before any step is taken.
    pub open spec fn start(self) -> (Self, DirectiveView) {
        match self.ledger.check() {
            Err(e) => self.finish(Outcome::Failed(Failure::Config(e)), false),
            Ok(_) => if self.ledger.identity is None {
                self.finish(Outcome::Failed(Failure::Identity), false)
            } else {
                self.decide(0, false)
            },
        }
    }

    /// The resource of the step in progress exists: its identifiers go on
    /// record, and the run turns to what follows.
    pub open spec fn record(self, kind: ResourceKind, o: OutputsView) -> (Self, DirectiveView) {
        if o.kind() != kind {
            self.fail(Failure::State(StateError::UnexpectedOutputs(kind)))
        } else if self.ledger.is_created(kind) {
            self.fail(Failure::State(StateError::AlreadyCreated(kind)))
        } else {
            (OrchestratorView { ledger: self.ledger.record(o), ..self }).decide(
                rank(kind) + 1,
                true,
            )
        }
    }

    /// A wait begins, or is taken up again: the resource that the provider
    /// accepted under the name `handle` is polled after the first delay, cut
    /// to the limit of the wait. It is polled, never asked for again.
    pub open spec fn wait(self, kind: ResourceKind, handle: Seq<char>, attempt: u32) -> (
        Self,
        DirectiveView,
    ) {
        let d = least(self.policy.first(), self.policy.wait_limit as int) as u64;
        (
            self.at(
                PhaseView::Waiting { kind, handle, attempt, waited: d, delay: self.first_delay() },
            ),
            plainly(false, ActionView::Poll { kind, handle, delay: d }),
        )
    }

    /// An event that answers no request in progress ends the run.
    pub open spec fn reject(self) -> (Self, DirectiveView) {
        self.fail(Failure::State(StateError::UnexpectedEvent))
    }

    /// The next state and the directive, for every state and event.
    pub open spec fn step(self, e: EventView) -> (Self, DirectiveView) {
        match self.phase {
            PhaseView::Idle => match e {
                EventView::Start => self.start(),
                _ => self.finish(
                    Outcome::Failed(Failure::State(StateError::UnexpectedEvent)),
                    false,
                ),
            },
            PhaseView::Finished(o) => (self, plainly(false, ActionView::Finish(o))),
            PhaseView::Probing { attempt, delay } => match e {
                EventView::BucketMissing => (
                    self.at(
                        PhaseView::Creating {
                            kind: ResourceKind::Bucket,
                            attempt: 1,
                            delay: self.first_delay(),
                        },
                    ),
                    plainly(false, ActionView::Create { kind: ResourceKind::Bucket, delay: 0 }),
                ),
                EventView::BucketOwned => self.record(ResourceKind::Bucket, OutputsView::Bucket),
                EventView::BucketForeign => self.fail(Failure::Config(ConfigError::ForeignBucket)),
                EventView::Failed => if self.policy.allows_retry(attempt as int) {
                    (
                        self.at(
                            PhaseView::Probing {
                                attempt: (attempt + 1) as u32,
                                delay: self.policy.next(delay as int) as u64,
                            },
                        ),
                        plainly(false, ActionView::ProbeBucket { delay }),
                    )
                } else {
                    self.fail(Failure::Provisioning(ResourceKind::Bucket))
                },
                _ => self.reject(),
            },
            PhaseView::Creating { kind, attempt, delay } => match e {
                EventView::Ready(o) => self.record(kind, o),
                EventView::Accepted(handle) => self.wait(kind, handle, attempt),
                EventView::Failed => if self.policy.allows_retry(attempt as int) {
                    (
                        self.at(
                            PhaseView::Creating {
                                kind,
                                attempt: (attempt + 1) as u32,
                                delay: self.policy.next(delay as int) as u64,
                            },
                        ),
                        plainly(false, ActionView::Create { kind, delay }),
                    )
                } else {
                    self.fail(Failure::Provisioning(kind))
                },
                _ => self.reject(),
            },
            PhaseView::Waiting { kind, handle, attempt, waited, delay } => match e {
                EventView::Ready(o) => self.record(kind, o),
                EventView::Pending => if waited >= self.policy.wait_limit {
                    if self.policy.allows_retry(attempt as int) {
                        self.wait(kind, handle, (attempt + 1) as u32)
                    } else {
                        self.fail(Failure::Timeout(kind))
                    }
                } else {
                    let nominal = self.policy.next(delay as int) as u64;
                    let d = least(nominal as int, self.policy.wait_limit - waited) as u64;
                    (
                        self.at(
                            PhaseView::Waiting {
                                kind,
                                handle,
                                attempt,
                                waited: (waited + d) as u64,
                                delay: nominal,
                            },
                        ),
                        plainly(false, ActionView::Poll { kind, handle, delay: d }),
                    )
                },
                EventView::Failed => if self.policy.allows_retry(attempt as int) {
                    self.wait(kind, handle, (attempt + 1) as u32)
                } else {
                    self.fail(Failure::Provisioning(kind))
                },
                _ => self.reject(),
            },
            PhaseView::Deleting { kind, attempt, delay } => match e {
                EventView::Deleted => (OrchestratorView {
                    ledger: self.ledger.erase(kind),
                    ..self
                }).decide(0, true),
                EventView::Failed => if self.policy.allows_retry(attempt as int) {
                    (
                        self.at(
                            PhaseView::Deleting {
                                kind,
                                attempt: (attempt + 1) as u32,
                                delay: self.policy.next(delay as int) as u64,
                            },
                        ),
                        plainly(false, ActionView::Delete { kind, delay }),
                    )
                } else {
                    self.fail(Failure::Provisioning(kind))
                },
                _ => self.reject(),
            },
        }
    }

    /// What holds of every state that a run reaches: the step in progress
    /// is the one the ledger calls for, the waiting is within its limit, and
    /// a run that ended well has reached its goal.
    pub open spec fn inv(self) -> bool {
        match self.phase {
            PhaseView::Idle => true,
            PhaseView::Finished(Outcome::Done) => self.runnable() && match self.goal {
                Goal::Provision => next_missing(self.ledger, self.anchors) is None,
                Goal::Teardown => last_recorded(self.ledger) is None,
            },
            PhaseView::Finished(_) => true,
            PhaseView::Probing { attempt, delay } => self.goal == Goal::Provision
                && self.runnable() && next_missing(self.ledger, self.anchors) == Some(
                ResourceKind::Bucket,
            ) && attempt >= 1 && delay >= 1,
            PhaseView::Creating { kind, attempt, delay } => self.goal == Goal::Provision
                && self.runnable() && next_missing(self.ledger, self.anchors) == Some(kind)
                && attempt >= 1 && delay >= 1,
            PhaseView::Waiting { kind, handle, attempt, waited, delay } => self.goal
                == Goal::Provision && self.runnable() && next_missing(self.ledger, self.anchors)
                == Some(kind) && attempt >= 1 && waited <= self.policy.wait_limit && delay >= 1,
            PhaseView::Deleting { kind, attempt, delay } => self.goal == Goal::Teardown
                && self.runnable() && last_recorded(self.ledger) == Some(kind) && attempt >= 1
                && delay >= 1,
        }
    }

    /// The state that a sequence of events leads to.
    pub open spec fn run(self, events: Seq<EventView>) -> Self
        decreases events.len(),
    {
        if events.len() == 0 {
            self
        } else {
            self.step(events[0]).0.run(events.subrange(1, events.len() as int))
        }
    }

    /// The state once cancellation is asked for: nothing changes until the
    /// step in progress is over.
    pub open spec fn cancelled(self) -> Self {
        OrchestratorView { cancel: true, ..self }
    }
}

} // verus!
