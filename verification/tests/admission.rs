use calc_eval::guard::is_safe_expr;

#[test]
fn plain_arithmetic_is_admitted() {
    assert!(is_safe_expr("1 + 2 * 3"));
    assert!(is_safe_expr("42"));
    assert!(is_safe_expr("(1.5) / (2 - .5)"));
    assert!(is_safe_expr("((1) + (2)) * 3"));
    assert!(is_safe_expr(""));
}

#[test]
fn forms_the_evaluator_can_abort_on_are_refused() {
    assert!(!is_safe_expr("\u{e9} + 1"));
    assert!(!is_safe_expr("[1]"));
    assert!(!is_safe_expr("1 % 2"));
    assert!(!is_safe_expr("()"));
    assert!(!is_safe_expr(")("));
    assert!(!is_safe_expr("1) + (2"));
    assert!(!is_safe_expr("1 +"));
    assert!(!is_safe_expr("+ 1"));
    assert!(!is_safe_expr("(+ 1)"));
    assert!(!is_safe_expr("1..5"));
    assert!(!is_safe_expr("1234567890123456"));
    assert!(!is_safe_expr("18446744073709551615 - 1"));
    assert!(!is_safe_expr("min(1, 2)"));
}
