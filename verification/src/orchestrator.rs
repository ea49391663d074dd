//! The orchestrator: it owns the ledger for the length of a run, is told
//! what happened, and answers with what to do next.

use crate::backoff::Policy;
use crate::errors::{ConfigError, Failure, StateError};
use crate::kind::{ResourceKind, PLAN_LEN};
use crate::laws::lemma_step_is_sound;
use crate::ledger::Resources;
use crate::model::OrchestratorView;
use crate::outputs::Outputs;
use crate::plan::{completed, completed_steps, find_last_recorded, find_next_missing, steps_between};
use crate::protocol::{Action, Directive, Event, Goal, Outcome, Phase};
use vstd::prelude::*;

verus! {

/// One run over one ledger.
#[derive(Clone, Debug, PartialEq, Eq)]
pub struct Orchestrator {
    ledger: Resources,
    anchors: bool,
    policy: Policy,
    goal: Goal,
    phase: Phase,
    cancel: bool,
}

impl View for Orchestrator {
    type V = OrchestratorView;

    closed spec fn view(&self) -> OrchestratorView {
        OrchestratorView {
            ledger: self.ledger@,
            anchors: self.anchors,
            policy: self.policy,
            goal: self.goal,
            phase: self.phase@,
            cancel: self.cancel,
        }
    }
}

impl Orchestrator {
    /// Prepares a run on a ledger. `anchors` says whether the fleet has an
    /// anchor tier.
    pub fn new(ledger: Resources, anchors: bool, policy: Policy, goal: Goal) -> (r: Orchestrator)
        ensures
            r@ == OrchestratorView::fresh(ledger@, anchors, policy, goal),
            r@.inv(),
    {
        Orchestrator { ledger, anchors, policy, goal, phase: Phase::Idle, cancel: false }
    }

    /// The ledger as it stands.
    pub fn ledger(&self) -> (r: &Resources)
        ensures
            r@ == self@.ledger,
    {
        &self.ledger
    }

    /// Gives the ledger back.
    pub fn into_ledger(self) -> (r: Resources)
        ensures
            r@ == self@.ledger,
    {
        self.ledger
    }

    /// Where the run stands.
    pub fn phase(&self) -> (r: &Phase)
        ensures
            r@ == self@.phase,
    {
        &self.phase
    }

    /// How the run ended, once it has.
    pub fn outcome(&self) -> (r: Option<Outcome>)
        ensures
            r == (match self@.phase {
                crate::protocol::PhaseView::Finished(o) => Some(o),
                _ => None,
            }),
    {
        match &self.phase {
            Phase::Finished(o) => Some(*o),
            _ => None,
        }
    }

    /// Whether the fleet has an anchor tier.
    pub fn anchors(&self) -> (r: bool)
        ensures
            r == self@.anchors,
    {
        self.anchors
    }

    /// What the run is to achieve.
    pub fn goal(&self) -> (r: Goal)
        ensures
            r == self@.goal,
    {
        self.goal
    }

    /// The limits within which the run retries and waits.
    pub fn policy(&self) -> (r: Policy)
        ensures
            r == self@.policy,
    {
        self.policy
    }

    /// Whether the run is to stop at the next step boundary.
    pub fn cancel_requested(&self) -> (r: bool)
        ensures
            r == self@.cancel,
    {
        self.cancel
    }

    /// Asks the run to stop. It does so between two steps, never within one.
    pub fn request_cancel(&mut self)
        ensures
            final(self)@ == old(self)@.cancelled(),
            old(self)@.inv() ==> final(self)@.inv(),
    {
        self.cancel = true;
    }

    /// The chain of completed steps, in the plan's order.
    pub fn completed(&self) -> (r: Vec<ResourceKind>)
        ensures
            r@ == completed(self@.ledger, self@.anchors),
    {
        completed_steps(&self.ledger, self.anchors)
    }

    fn finish(&mut self, outcome: Outcome, persist: bool) -> (d: Directive)
        ensures
            (final(self)@, d@) == old(self)@.finish(outcome, persist),
    {
        self.phase = Phase::Finished(outcome);
        Directive { persist, skipped: Vec::new(), action: Action::Finish(outcome) }
    }

    fn fail(&mut self, failure: Failure) -> (d: Directive)
        ensures
            (final(self)@, d@) == old(self)@.fail(failure),
    {
        self.finish(Outcome::Failed(failure), true)
    }

    fn reject(&mut self) -> (d: Directive)
        ensures
            (final(self)@, d@) == old(self)@.reject(),
    {
        self.fail(Failure::State(StateError::UnexpectedEvent))
    }

    fn decide(&mut self, from: usize, persist: bool) -> (d: Directive)
        ensures
            (final(self)@, d@) == old(self)@.decide(from as int, persist),
    {
        if self.cancel {
            return self.finish(Outcome::Cancelled, true);
        }
        let first = self.policy.first_delay();
        match self.goal {
            Goal::Provision => match find_next_missing(&self.ledger, self.anchors) {
                None => {
                    self.phase = Phase::Finished(Outcome::Done);
                    Directive {
                        persist,
                        skipped: steps_between(self.anchors, from, PLAN_LEN),
                        action: Action::Finish(Outcome::Done),
                    }
                },
                Some(kind) => {
                    let to = match kind.position() {
                        Some(p) => p,
                        None => PLAN_LEN,
                    };
                    let skipped = steps_between(self.anchors, from, to);
                    if kind == ResourceKind::Bucket {
                        self.phase = Phase::Probing { attempt: 1, delay: first };
                        Directive { persist, skipped, action: Action::ProbeBucket { delay: 0 } }
                    } else {
                        self.phase = Phase::Creating { kind, attempt: 1, delay: first };
                        Directive { persist, skipped, action: Action::Create { kind, delay: 0 } }
                    }
                },
            },
            Goal::Teardown => match find_last_recorded(&self.ledger) {
                None => self.finish(Outcome::Done, persist),
                Some(kind) => {
                    self.phase = Phase::Deleting { kind, attempt: 1, delay: first };
                    Directive {
                        persist,
                        skipped: Vec::new(),
                        action: Action::Delete { kind, delay: 0 },
                    }
                },
            },
        }
    }

    fn start(&mut self) -> (d: Directive)
        ensures
            (final(self)@, d@) == old(self)@.start(),
    {
        match self.ledger.validate() {
            Err(e) => self.finish(Outcome::Failed(Failure::Config(e)), false),
            Ok(_) => {
                if self.ledger.identity().is_none() {
                    self.finish(Outcome::Failed(Failure::Identity), false)
                } else {
                    self.decide(0, false)
                }
            },
        }
    }

    fn record(&mut self, kind: ResourceKind, outputs: Outputs) -> (d: Directive)
        ensures
            (final(self)@, d@) == old(self)@.record(kind, outputs@),
    {
        if outputs.kind() != kind {
            return self.fail(Failure::State(StateError::UnexpectedOutputs(kind)));
        }
        match self.ledger.apply_created(outputs) {
            Err(e) => self.fail(Failure::State(e)),
            Ok(_) => {
                let from = match kind.position() {
                    Some(p) => p + 1,
                    None => PLAN_LEN + 1,
                };
                self.decide(from, true)
            },
        }
    }

    fn wait(&mut self, kind: ResourceKind, handle: String, attempt: u32) -> (d: Directive)
        ensures
            (final(self)@, d@) == old(self)@.wait(kind, handle@, attempt),
    {
        let first = self.policy.first_delay();
        let delay = if first <= self.policy.wait_limit {
            first
        } else {
            self.policy.wait_limit
        };
        self.phase = Phase::Waiting {
            kind,
            handle: handle.clone(),
            attempt,
            waited: delay,
            delay: first,
        };
        Directive {
            persist: false,
            skipped: Vec::new(),
            action: Action::Poll { kind, handle, delay },
        }
    }

    /// Takes the run one event further and says what to do next. The run
    /// begins with `Event::Start`; every later event reports how the request
    /// of the directive before it has gone.
    pub fn advance(&mut self, event: Event) -> (d: Directive)
        ensures
            (final(self)@, d@) == old(self)@.step(event@),
            old(self)@.inv() ==> final(self)@.inv(),
    {
        proof {
            if self@.inv() {
                lemma_step_is_sound(self@, event@);
            }
        }
        let phase = self.phase.copy();
        match phase {
            Phase::Idle => match event {
                Event::Start => self.start(),
                _ => self.finish(
                    Outcome::Failed(Failure::State(StateError::UnexpectedEvent)),
                    false,
                ),
            },
            Phase::Finished(o) => Directive {
                persist: false,
                skipped: Vec::new(),
                action: Action::Finish(o),
            },
            Phase::Probing { attempt, delay } => match event {
                Event::BucketMissing => {
                    self.phase = Phase::Creating {
                        kind: ResourceKind::Bucket,
                        attempt: 1,
                        delay: self.policy.first_delay(),
                    };
                    Directive {
                        persist: false,
                        skipped: Vec::new(),
                        action: Action::Create { kind: ResourceKind::Bucket, delay: 0 },
                    }
                },
                Event::BucketOwned => self.record(ResourceKind::Bucket, Outputs::Bucket),
                Event::BucketForeign => self.fail(Failure::Config(ConfigError::ForeignBucket)),
                Event::Failed => {
                    if self.policy.may_retry(attempt) {
                        self.phase = Phase::Probing {
                            attempt: attempt + 1,
                            delay: self.policy.next_delay(delay),
                        };
                        Directive {
                            persist: false,
                            skipped: Vec::new(),
                            action: Action::ProbeBucket { delay },
                        }
                    } else {
                        self.fail(Failure::Provisioning(ResourceKind::Bucket))
                    }
                },
                _ => self.reject(),
            },
            Phase::Creating { kind, attempt, delay } => match event {
                Event::Ready(o) => self.record(kind, o),
                Event::Accepted(handle) => self.wait(kind, handle, attempt),
                Event::Failed => {
                    if self.policy.may_retry(attempt) {
                        self.phase = Phase::Creating {
                            kind,
                            attempt: attempt + 1,
                            delay: self.policy.next_delay(delay),
                        };
                        Directive {
                            persist: false,
                            skipped: Vec::new(),
                            action: Action::Create { kind, delay },
                        }
                    } else {
                        self.fail(Failure::Provisioning(kind))
                    }
                },
                _ => self.reject(),
            },
            Phase::Waiting { kind, handle, attempt, waited, delay } => match event {
                Event::Ready(o) => self.record(kind, o),
                Event::Pending => {
                    if waited >= self.policy.wait_limit {
                        if self.policy.may_retry(attempt) {
                            self.wait(kind, handle, attempt + 1)
                        } else {
                            self.fail(Failure::Timeout(kind))
                        }
                    } else {
                        let nominal = self.policy.next_delay(delay);
                        let left = self.policy.wait_limit - waited;
                        let d = if nominal <= left {
                            nominal
                        } else {
                            left
                        };
                        self.phase = Phase::Waiting {
                            kind,
                            handle: handle.clone(),
                            attempt,
                            waited: waited + d,
                            delay: nominal,
                        };
                        Directive {
                            persist: false,
                            skipped: Vec::new(),
                            action: Action::Poll { kind, handle, delay: d },
                        }
                    }
                },
                Event::Failed => {
                    if self.policy.may_retry(attempt) {
                        self.wait(kind, handle, attempt + 1)
                    } else {
                        self.fail(Failure::Provisioning(kind))
                    }
                },
                _ => self.reject(),
            },
            Phase::Deleting { kind, attempt, delay } => match event {
                Event::Deleted => {
                    self.ledger.clear(kind);
                    self.decide(0, true)
                },
                Event::Failed => {
                    if self.policy.may_retry(attempt) {
                        self.phase = Phase::Deleting {
                            kind,
                            attempt: attempt + 1,
                            delay: self.policy.next_delay(delay),
                        };
                        Directive {
                            persist: false,
                            skipped: Vec::new(),
                            action: Action::Delete { kind, delay },
                        }
                    } else {
                        self.fail(Failure::Provisioning(kind))
                    }
                },
                _ => self.reject(),
            },
        }
    }
}

} // verus!
