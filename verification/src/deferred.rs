//! The deferred execution bridge. A `Deferred` is a single-resolution
//! container: it is created pending, holding the work to do; running it
//! performs substitution then evaluation and resolves it, exactly once, to
//! the pipeline's outcome; a resolved value never becomes pending again, and
//! its outcome can then be observed.
//!
//! The host is expected to run a pending value's continuation after one hop
//! of its task queue; scheduling itself never blocks and never fails, so
//! creation returns the pending handle synchronously.

use vstd::prelude::*;
use vstd::pervasive::unreached;
use crate::outcome::{Failure, FailureModel};
use crate::engine::{pipeline_outcome, result_model, run_pipeline};

verus! {

/// A deferred evaluation: pending with its template and values until its
/// continuation runs, then resolved — terminally — to the pipeline outcome.
pub enum Deferred {
    Pending { template: String, values: Vec<String> },
    Resolved { outcome: Result<String, Failure> },
}

impl Deferred {
    /// The template of a pending value's task.
    pub open spec fn task_template(self) -> Seq<char>
        recommends
            self is Pending,
    {
        self->Pending_template@
    }

    /// The ordered substitution values of a pending value's task.
    pub open spec fn task_values(self) -> Seq<Seq<char>>
        recommends
            self is Pending,
    {
        self->Pending_values.deep_view()
    }

    /// What a resolved value resolved to.
    pub open spec fn resolution(self) -> Result<Seq<char>, FailureModel>
        recommends
            self is Resolved,
    {
        result_model(self->Resolved_outcome)
    }

    /// Whether the value is still awaiting its continuation.
    pub fn pending(&self) -> (r: bool)
        ensures
            r == (self is Pending),
    {
        match self {
            Deferred::Pending { .. } => true,
            Deferred::Resolved { .. } => false,
        }
    }

    /// The continuation: substitute, then evaluate, then resolve. It may run
    /// only while the value is pending, and it resolves the value — so each
    /// deferred value is resolved exactly once, to the one outcome the
    /// pipeline admits for its task, and the failure path still resolves.
    pub fn run(&mut self)
        requires
            *old(self) is Pending,
        ensures
            *final(self) is Resolved,
            (*final(self)).resolution() == pipeline_outcome(
                (*old(self)).task_template(),
                (*old(self)).task_values(),
            ),
    {
        let outcome = match &*self {
            Deferred::Pending { template, values } => run_pipeline(template.as_str(), values),
            Deferred::Resolved { .. } => unreached(),
        };
        *self = Deferred::Resolved { outcome };
    }

    /// Observe what the value resolved to.
    pub fn outcome(&self) -> (r: &Result<String, Failure>)
        requires
            self is Resolved,
        ensures
            result_model(*r) == self.resolution(),
    {
        match self {
            Deferred::Resolved { outcome } => outcome,
            Deferred::Pending { .. } => unreached(),
        }
    }
}

/// Defer one evaluation: immediately hand back a pending deferred value
/// holding the template and the values, without blocking and without
/// starting the work. The host runs the continuation after its next queue
/// hop; the handle resolves exactly once, when `run` is called on it.
pub fn schedule_eval(expr: String, vals: Vec<String>) -> (d: Deferred)
    ensures
        d is Pending,
        d.task_template() == expr@,
        d.task_values() == vals.deep_view(),
{
    Deferred::Pending { template: expr, values: vals }
}

} // verus!
