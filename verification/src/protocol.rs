//! What passes between the orchestrator and whoever performs its requests:
//! the requests it makes and the events it is told of.

use crate::errors::Failure;
use crate::kind::ResourceKind;
use crate::outputs::{Outputs, OutputsView};
use vstd::prelude::*;

verus! {

/// What a run is to achieve.
#[derive(Clone, Copy, Debug, PartialEq, Eq, Structural)]
pub enum Goal {
    /// Every step of the plan is done.
    Provision,
    /// Nothing of the plan is left on record.
    Teardown,
}

/// How a run ended.
#[derive(Clone, Copy, Debug, PartialEq, Eq, Structural)]
pub enum Outcome {
    /// The goal is reached.
    Done,
    /// The run was cancelled between two steps.
    Cancelled,
    /// A step failed; the steps after it were not taken.
    Failed(Failure),
}

/// Where a run stands.
#[derive(Clone, Debug, PartialEq, Eq)]
pub enum Phase {
    /// Not started.
    Idle,
    /// Asked whether the bucket exists. `attempt` counts the calls made;
    /// `delay` is the pause before the next one.
    Probing { attempt: u32, delay: u64 },
    /// Asked for the creation of a resource.
    Creating { kind: ResourceKind, attempt: u32, delay: u64 },
    /// The provider has accepted the creation under the name `handle` and
    /// the resource is not stable yet. `attempt` counts the tries of the
    /// step, a wait that was taken up again included; `waited` is the time
    /// spent in this wait once the poll in progress returns; `delay` is the
    /// last delay before it was cut to the time left.
    Waiting { kind: ResourceKind, handle: String, attempt: u32, waited: u64, delay: u64 },
    /// Asked for the deletion of a resource.
    Deleting { kind: ResourceKind, attempt: u32, delay: u64 },
    /// The run is over.
    Finished(Outcome),
}

/// The mathematical value of [`Phase`].
pub enum PhaseView {
    Idle,
    Probing { attempt: u32, delay: u64 },
    Creating { kind: ResourceKind, attempt: u32, delay: u64 },
    Waiting { kind: ResourceKind, handle: Seq<char>, attempt: u32, waited: u64, delay: u64 },
    Deleting { kind: ResourceKind, attempt: u32, delay: u64 },
    Finished(Outcome),
}

impl View for Phase {
    type V = PhaseView;

    open spec fn view(&self) -> PhaseView {
        match self {
            Phase::Idle => PhaseView::Idle,
            Phase::Probing { attempt, delay } => PhaseView::Probing {
                attempt: *attempt,
                delay: *delay,
            },
            Phase::Creating { kind, attempt, delay } => PhaseView::Creating {
                kind: *kind,
                attempt: *attempt,
                delay: *delay,
            },
            Phase::Waiting { kind, handle, attempt, waited, delay } => PhaseView::Waiting {
                kind: *kind,
                handle: handle@,
                attempt: *attempt,
                waited: *waited,
                delay: *delay,
            },
            Phase::Deleting { kind, attempt, delay } => PhaseView::Deleting {
                kind: *kind,
                attempt: *attempt,
                delay: *delay,
            },
            Phase::Finished(o) => PhaseView::Finished(*o),
        }
    }
}

impl Phase {
    /// A copy with the same contents.
    pub fn copy(&self) -> (r: Phase)
        ensures
            r@ == self@,
    {
        match self {
            Phase::Idle => Phase::Idle,
            Phase::Probing { attempt, delay } => Phase::Probing {
                attempt: *attempt,
                delay: *delay,
            },
            Phase::Creating { kind, attempt, delay } => Phase::Creating {
                kind: *kind,
                attempt: *attempt,
                delay: *delay,
            },
            Phase::Waiting { kind, handle, attempt, waited, delay } => Phase::Waiting {
                kind: *kind,
                handle: handle.clone(),
                attempt: *attempt,
                waited: *waited,
                delay: *delay,
            },
            Phase::Deleting { kind, attempt, delay } => Phase::Deleting {
                kind: *kind,
                attempt: *attempt,
                delay: *delay,
            },
            Phase::Finished(o) => Phase::Finished(*o),
        }
    }
}

/// What the orchestrator is told: the start of the run, or how the request
/// it made last has gone.
#[derive(Clone, Debug, PartialEq, Eq)]
pub enum Event {
    /// The run begins.
    Start,
    /// No bucket of the ledger's name exists.
    BucketMissing,
    /// The bucket exists and is the caller's.
    BucketOwned,
    /// The bucket exists and is not known to be the caller's.
    BucketForeign,
    /// The provider has accepted the creation, under this name; the
    /// resource is not stable yet.
    Accepted(String),
    /// The resource exists and is stable, with these identifiers.
    Ready(Outputs),
    /// The resource is not stable yet.
    Pending,
    /// The resource is deleted.
    Deleted,
    /// The provider failed the call.
    Failed,
}

/// The mathematical value of [`Event`].
pub enum EventView {
    Start,
    BucketMissing,
    BucketOwned,
    BucketForeign,
    Accepted(Seq<char>),
    Ready(OutputsView),
    Pending,
    Deleted,
    Failed,
}

impl View for Event {
    type V = EventView;

    open spec fn view(&self) -> EventView {
        match self {
            Event::Start => EventView::Start,
            Event::BucketMissing => EventView::BucketMissing,
            Event::BucketOwned => EventView::BucketOwned,
            Event::BucketForeign => EventView::BucketForeign,
            Event::Accepted(h) => EventView::Accepted(h@),
            Event::Ready(o) => EventView::Ready(o@),
            Event::Pending => EventView::Pending,
            Event::Deleted => EventView::Deleted,
            Event::Failed => EventView::Failed,
        }
    }
}

/// What the orchestrator asks for next. A `delay` is the time, in
/// milliseconds, to let pass before the request is made.
#[derive(Clone, Debug, PartialEq, Eq)]
pub enum Action {
    /// Ask whether the bucket of the ledger's name exists, and whose it is.
    ProbeBucket { delay: u64 },
    /// Create the resource of this kind.
    Create { kind: ResourceKind, delay: u64 },
    /// Ask whether the resource created under the name `handle` is stable.
    Poll { kind: ResourceKind, handle: String, delay: u64 },
    /// Delete the resource of this kind.
    Delete { kind: ResourceKind, delay: u64 },
    /// Nothing more: the run is over.
    Finish(Outcome),
}

/// The mathematical value of [`Action`].
pub enum ActionView {
    ProbeBucket { delay: u64 },
    Create { kind: ResourceKind, delay: u64 },
    Poll { kind: ResourceKind, handle: Seq<char>, delay: u64 },
    Delete { kind: ResourceKind, delay: u64 },
    Finish(Outcome),
}

impl View for Action {
    type V = ActionView;

    open spec fn view(&self) -> ActionView {
        match self {
            Action::ProbeBucket { delay } => ActionView::ProbeBucket { delay: *delay },
            Action::Create { kind, delay } => ActionView::Create { kind: *kind, delay: *delay },
            Action::Poll { kind, handle, delay } => ActionView::Poll {
                kind: *kind,
                handle: handle@,
                delay: *delay,
            },
            Action::Delete { kind, delay } => ActionView::Delete { kind: *kind, delay: *delay },
            Action::Finish(o) => ActionView::Finish(*o),
        }
    }
}

/// The orchestrator's answer to an event.
#[derive(Clone, Debug, PartialEq, Eq)]
pub struct Directive {
    /// Whether the ledger is to be saved before anything else is done.
    pub persist: bool,
    /// The steps found done and passed over on the way to the next request.
    pub skipped: Vec<ResourceKind>,
    /// The next request.
    pub action: Action,
}

/// The mathematical value of [`Directive`].
pub struct DirectiveView {
    pub persist: bool,
    pub skipped: Seq<ResourceKind>,
    pub action: ActionView,
}

impl View for Directive {
    type V = DirectiveView;

    open spec fn view(&self) -> DirectiveView {
        DirectiveView { persist: self.persist, skipped: self.skipped@, action: self.action@ }
    }
}

} // verus!
