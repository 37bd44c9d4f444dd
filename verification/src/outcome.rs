//! Failure values for the substitution/evaluation pipeline, together with
//! their mathematical counterparts used in contracts.

use vstd::prelude::*;
use vstd::string::StringExecFns;

verus! {

/// Why a run of the pipeline failed: either the template held more
/// placeholders than there were values, or the evaluator rejected the
/// substituted expression (carrying the evaluator's diagnostic).
#[derive(Debug)]
pub enum Failure {
    SubstitutionArity,
    Evaluation(String),
}

/// The mathematical form of a `Failure`, used in specifications.
pub enum FailureModel {
    SubstitutionArity,
    Evaluation(Seq<char>),
}

impl View for Failure {
    type V = FailureModel;

    open spec fn view(&self) -> FailureModel {
        match self {
            Failure::SubstitutionArity => FailureModel::SubstitutionArity,
            Failure::Evaluation(m) => FailureModel::Evaluation(m@),
        }
    }
}

/// The diagnostic text a `Failure` renders to: it names the failing stage,
/// and for an evaluation failure carries the evaluator's own message.
pub open spec fn failure_message(f: FailureModel) -> Seq<char> {
    match f {
        FailureModel::SubstitutionArity => "substitution failed: not enough values for the placeholders"@,
        FailureModel::Evaluation(m) => "evaluation failed: "@ + m,
    }
}

impl Failure {
    /// Human-readable diagnostic identifying the failing stage and cause.
    pub fn message(&self) -> (r: String)
        ensures
            r@ == failure_message(self@),
    {
        match self {
            Failure::SubstitutionArity => {
                String::from_str("substitution failed: not enough values for the placeholders")
            },
            Failure::Evaluation(m) => {
                let mut s = String::from_str("evaluation failed: ");
                s.append(m.as_str());
                s
            },
        }
    }
}

} // verus!
