//! A syntactic admission check for substituted expressions. The evaluator is
//! relied on only for expressions in a plain arithmetic form — digits, dots,
//! the four operators `+ - * /` and properly nested parentheses — because on
//! text outside this form it can abort instead of reporting a failure:
//! non-ASCII text is sliced at a non-character boundary, square brackets and
//! `%` reach unchecked pops and a remainder by zero, an empty or misordered
//! parenthesis pair underflows its parse stack, a leading operator can build
//! an operand-less node, `..` materialises an unbounded numeric range, and
//! integer arithmetic beyond the checked digit budget can overflow. An
//! expression rejected here is reported as an evaluation failure, never
//! handed to the evaluator.

use vstd::prelude::*;
use vstd::string::StrSliceExecFns;

verus! {

/// The last significant (non-space) piece seen while scanning.
#[derive(Clone, Copy)]
pub enum Scanned {
    /// Nothing yet: the start of the expression.
    Nothing,
    /// An operand-ending character: a digit, a dot, or a closing parenthesis.
    Operand,
    /// One of the four arithmetic operators.
    Operator,
    /// An opening parenthesis.
    OpenParen,
}

pub open spec fn digit_char(c: char) -> bool {
    ('0' as u32) <= (c as u32) && (c as u32) <= ('9' as u32)
}

pub open spec fn operator_char(c: char) -> bool {
    c == '+' || c == '-' || c == '*' || c == '/'
}

pub open spec fn allowed_char(c: char) -> bool {
    digit_char(c) || operator_char(c) || c == ' ' || c == '(' || c == ')' || c == '.'
}

/// Scan `s` from position `i` with `depth` open parentheses, `digits` digit
/// characters seen so far, `last` the last significant piece, and `prev_dot`
/// whether the immediately preceding character was a dot. Admission demands:
/// only allowed characters; at most 15 digits in all; an operator preceded by
/// an operand and followed (after spaces) by a digit, a dot or an opening
/// parenthesis; a closing parenthesis that closes a non-empty group; no two
/// adjacent dots; and balanced parentheses, never closing below depth zero.
pub open spec fn scan_ok(
    s: Seq<char>,
    i: int,
    depth: int,
    digits: int,
    last: Scanned,
    prev_dot: bool,
) -> bool
    decreases s.len() - i
        when 0 <= i <= s.len()
{
    if i == s.len() {
        depth == 0 && !(last is Operator)
    } else {
        let c = s[i];
        if !allowed_char(c) {
            false
        } else if c == ' ' {
            scan_ok(s, i + 1, depth, digits, last, false)
        } else if last is Operator && !(digit_char(c) || c == '.' || c == '(') {
            false
        } else if digit_char(c) {
            digits < 15 && scan_ok(s, i + 1, depth, digits + 1, Scanned::Operand, false)
        } else if c == '.' {
            !prev_dot && scan_ok(s, i + 1, depth, digits, Scanned::Operand, true)
        } else if operator_char(c) {
            last is Operand && scan_ok(s, i + 1, depth, digits, Scanned::Operator, false)
        } else if c == '(' {
            scan_ok(s, i + 1, depth + 1, digits, Scanned::OpenParen, false)
        } else {
            depth > 0 && last is Operand && scan_ok(
                s,
                i + 1,
                depth - 1,
                digits,
                Scanned::Operand,
                false,
            )
        }
    }
}

/// Whether the expression is in the admitted arithmetic form.
pub open spec fn safe_expr(s: Seq<char>) -> bool {
    scan_ok(s, 0, 0, 0, Scanned::Nothing, false)
}

/// Decide admission for an expression string.
pub fn is_safe_expr(expr: &str) -> (r: bool)
    ensures
        r == safe_expr(expr@),
{
    let n = expr.unicode_len();
    let mut i: usize = 0;
    let mut depth: usize = 0;
    let mut digits: usize = 0;
    let mut last = Scanned::Nothing;
    let mut prev_dot = false;
    while i < n
        invariant
            n == expr@.len(),
            i <= n,
            depth <= i,
            digits <= 15,
            safe_expr(expr@) == scan_ok(
                expr@,
                i as int,
                depth as int,
                digits as int,
                last,
                prev_dot,
            ),
        decreases n - i,
    {
        let c = expr.get_char(i);
        let cu = c as u32;
        let is_digit = ('0' as u32) <= cu && cu <= ('9' as u32);
        let is_operator = c == '+' || c == '-' || c == '*' || c == '/';
        let is_allowed = is_digit || is_operator || c == ' ' || c == '(' || c == ')' || c == '.';
        if !is_allowed {
            return false;
        }
        if c == ' ' {
            prev_dot = false;
        } else if matches!(last, Scanned::Operator) && !(is_digit || c == '.' || c == '(') {
            return false;
        } else if is_digit {
            if digits >= 15 {
                return false;
            }
            digits = digits + 1;
            last = Scanned::Operand;
            prev_dot = false;
        } else if c == '.' {
            if prev_dot {
                return false;
            }
            last = Scanned::Operand;
            prev_dot = true;
        } else if is_operator {
            if !matches!(last, Scanned::Operand) {
                return false;
            }
            last = Scanned::Operator;
            prev_dot = false;
        } else if c == '(' {
            depth = depth + 1;
            last = Scanned::OpenParen;
            prev_dot = false;
        } else {
            if depth == 0 || !matches!(last, Scanned::Operand) {
                return false;
            }
            depth = depth - 1;
            last = Scanned::Operand;
            prev_dot = false;
        }
        i = i + 1;
    }
    depth == 0 && !matches!(last, Scanned::Operator)
}

} // verus!
