use calc_eval::outcome::Failure;
use calc_eval::subst::insert_values;
use regex::{Captures, Regex};

#[test]
fn should_relace_regex() {
    let re = Regex::new(r"([^,\s]+),\s+(\S+)").unwrap();
    let result = re.replace("Springsteen, Bruce", |caps: &Captures| {
        format!("{} {}", &caps[2], &caps[1])
    });
    assert_eq!(result, "Bruce Springsteen");
}

#[test]
fn should_insert_numbers() {
    let nums = vec![String::from("1"), String::from("2"), String::from("3")];
    let expr = String::from("{} + {} * {}");
    assert_eq!(insert_values(&expr, &nums).unwrap(), "1 + 2 * 3");
}

#[test]
#[should_panic]
fn should_panic_when_value_size_does_not_match() {
    let nums = vec![String::from("1"), String::from("2")];
    let expr = String::from("{} + {} * {}");
    insert_values(&expr, &nums).unwrap();
}

#[test]
fn no_placeholders_leaves_template_unchanged() {
    let vals = vec![String::from("9"), String::from("8")];
    assert_eq!(insert_values("40 + 2", &vals).unwrap(), "40 + 2");
    let none: Vec<String> = Vec::new();
    assert_eq!(insert_values("", &none).unwrap(), "");
}

#[test]
fn trailing_values_are_ignored() {
    let vals = vec![String::from("2"), String::from("3"), String::from("4")];
    assert_eq!(insert_values("{} + 1", &vals).unwrap(), "2 + 1");
}

#[test]
fn arity_failure_is_the_substitution_error() {
    let vals = vec![String::from("1")];
    let err = insert_values("{} + {}", &vals).unwrap_err();
    assert!(matches!(err, Failure::SubstitutionArity));
    assert_eq!(
        err.message(),
        "substitution failed: not enough values for the placeholders"
    );
}

#[test]
fn brace_that_opens_no_placeholder_is_copied() {
    let vals = vec![String::from("7")];
    assert_eq!(insert_values("{{}", &vals).unwrap(), "{7");
}
