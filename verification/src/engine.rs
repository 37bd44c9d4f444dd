//! The substitution-then-evaluation pipeline. Expression evaluation is an
//! external capability: a synchronous, deterministic function from the
//! substituted expression string to a rendered scalar value or a diagnostic.

use vstd::prelude::*;
use crate::outcome::{Failure, FailureModel};
use crate::subst::{placeholder_count, substituted, insert_values};
use crate::guard::{safe_expr, is_safe_expr};
use vstd::string::StringExecFns;

verus! {

/// What evaluating an expression string yields: the rendered scalar on
/// success, or the evaluator's diagnostic text on failure. The evaluator is
/// synchronous and deterministic, so this is a function of the string alone.
pub uninterp spec fn eval_outcome(expr: Seq<char>) -> Result<Seq<char>, Seq<char>>;

/// Relies on eval::eval: it compiles and executes the expression with no
/// context and no custom functions, so its result — the value, rendered in
/// its canonical textual form, or the error's message — depends on the
/// expression string alone. On text outside the admitted arithmetic form the
/// evaluator can abort instead of returning, so admission is required; within
/// the form the call returns a result.
#[verifier::external_body]
fn eval_expr(expr: &str) -> (r: Result<String, String>)
    requires
        safe_expr(expr@),
    ensures
        match r {
            Ok(v) => eval_outcome(expr@) == Result::<Seq<char>, Seq<char>>::Ok(v@),
            Err(e) => eval_outcome(expr@) == Result::<Seq<char>, Seq<char>>::Err(e@),
        },
{
    match eval::eval(expr) {
        Ok(value) => Ok(value.to_string()),
        Err(error) => Err(error.to_string()),
    }
}

/// The diagnostic reported when the substituted expression falls outside the
/// admitted arithmetic form and is therefore never handed to the evaluator.
pub open spec fn rejected_diagnostic() -> Seq<char> {
    "expression form not accepted by the evaluator"@
}

/// The one outcome a run of the pipeline on `t` and `vals` may have:
/// substitution fails exactly when the placeholders outnumber the values; a
/// substituted expression outside the admitted form is rejected with a fixed
/// diagnostic; otherwise it is evaluated and its success or diagnostic is
/// passed on.
pub open spec fn pipeline_outcome(t: Seq<char>, vals: Seq<Seq<char>>) -> Result<
    Seq<char>,
    FailureModel,
> {
    if placeholder_count(t) > vals.len() {
        Err(FailureModel::SubstitutionArity)
    } else if !safe_expr(substituted(t, vals)) {
        Err(FailureModel::Evaluation(rejected_diagnostic()))
    } else {
        match eval_outcome(substituted(t, vals)) {
            Ok(v) => Ok(v),
            Err(e) => Err(FailureModel::Evaluation(e)),
        }
    }
}

/// The mathematical form of an executable pipeline result.
pub open spec fn result_model(r: Result<String, Failure>) -> Result<Seq<char>, FailureModel> {
    match r {
        Ok(s) => Ok(s@),
        Err(f) => Err(f@),
    }
}

/// Substitute `vals` into `expr`, then evaluate the substituted expression,
/// in that order; the result is exactly the pipeline's one possible outcome.
pub fn run_pipeline(expr: &str, vals: &Vec<String>) -> (r: Result<String, Failure>)
    ensures
        result_model(r) == pipeline_outcome(expr@, vals.deep_view()),
{
    match insert_values(expr, vals) {
        Ok(s) => {
            if is_safe_expr(s.as_str()) {
                match eval_expr(s.as_str()) {
                    Ok(v) => Ok(v),
                    Err(e) => Err(Failure::Evaluation(e)),
                }
            } else {
                Err(Failure::Evaluation(String::from_str(
                    "expression form not accepted by the evaluator",
                )))
            }
        },
        Err(f) => Err(f),
    }
}

/// The synchronous entry point: best effort, never panics, and swallows
/// every failure into `None` — a caller on this path cannot tell an arity
/// error from an evaluation error. `Some` carries exactly the evaluator's
/// rendered value for the substituted expression.
pub fn eval_syn(expr: &str, vals: &Vec<String>) -> (r: Option<String>)
    ensures
        match r {
            Some(v) => pipeline_outcome(expr@, vals.deep_view()) == Result::<
                Seq<char>,
                FailureModel,
            >::Ok(v@),
            None => pipeline_outcome(expr@, vals.deep_view()) is Err,
        },
{
    match run_pipeline(expr, vals) {
        Ok(v) => Some(v),
        Err(_) => None,
    }
}

} // verus!
