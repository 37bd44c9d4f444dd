use calc_eval::deferred::schedule_eval;
use calc_eval::outcome::Failure;

#[test]
fn scheduling_returns_a_pending_value_without_running() {
    let nums = vec![String::from("1"), String::from("2"), String::from("3")];
    let d = schedule_eval(String::from("{} + {} * {}"), nums);
    assert!(d.pending());
}

#[test]
fn running_resolves_to_the_evaluated_result() {
    let nums = vec![String::from("1"), String::from("2"), String::from("3")];
    let mut d = schedule_eval(String::from("{} + {} * {}"), nums);
    d.run();
    assert!(!d.pending());
    assert_eq!(d.outcome().as_ref().unwrap(), "7");
}

#[test]
fn deferred_path_surfaces_the_arity_failure() {
    let nums = vec![String::from("1"), String::from("2")];
    let mut d = schedule_eval(String::from("{} + {} * {}"), nums);
    d.run();
    let err = d.outcome().as_ref().unwrap_err();
    assert!(matches!(err, Failure::SubstitutionArity));
    assert_eq!(
        err.message(),
        "substitution failed: not enough values for the placeholders"
    );
}

#[test]
fn deferred_path_surfaces_the_evaluation_failure() {
    let none: Vec<String> = Vec::new();
    let mut d = schedule_eval(String::from("+ 1"), none);
    d.run();
    let err = d.outcome().as_ref().unwrap_err();
    assert!(matches!(err, Failure::Evaluation(_)));
    assert!(err.message().starts_with("evaluation failed: "));
}

#[test]
fn plain_number_resolves_on_the_deferred_path() {
    let none: Vec<String> = Vec::new();
    let mut d = schedule_eval(String::from("42"), none);
    d.run();
    assert_eq!(d.outcome().as_ref().unwrap(), "42");
}
