//! The template substitution engine: each occurrence of the literal `{}`
//! marker in a template is replaced, left to right, by the next unconsumed
//! value from an ordered list; the text between markers is copied unchanged.

use vstd::prelude::*;
use vstd::string::{StrSliceExecFns, StringExecFns};
use crate::outcome::Failure;

verus! {

/// Number of `{}` placeholder occurrences in a template, counted left to
/// right; an occurrence consumes both of its characters, so `"{{}"` holds
/// exactly one occurrence, starting at its second character.
pub open spec fn placeholder_count(t: Seq<char>) -> nat
    decreases t.len(),
{
    if t.len() < 2 {
        0
    } else if t[0] == '{' && t[1] == '}' {
        1 + placeholder_count(t.skip(2))
    } else {
        placeholder_count(t.skip(1))
    }
}

/// The template with every placeholder occurrence replaced, in order, by the
/// corresponding value: the first occurrence takes `vals[0]`, the second
/// `vals[1]`, and so on. Meaningful when `placeholder_count(t) <= vals.len()`.
pub open spec fn substituted(t: Seq<char>, vals: Seq<Seq<char>>) -> Seq<char>
    decreases t.len(),
{
    if t.len() < 2 {
        t
    } else if t[0] == '{' && t[1] == '}' {
        vals[0] + substituted(t.skip(2), vals.skip(1))
    } else {
        seq![t[0]] + substituted(t.skip(1), vals)
    }
}

/// A template with no placeholders is left exactly as it is, whatever the
/// value list holds.
pub proof fn lemma_no_placeholders_identity(t: Seq<char>, vals: Seq<Seq<char>>)
    requires
        placeholder_count(t) == 0,
    ensures
        substituted(t, vals) == t,
    decreases t.len(),
{
    if t.len() < 2 {
    } else if t[0] == '{' && t[1] == '}' {
        assert(placeholder_count(t) >= 1);
    } else {
        lemma_no_placeholders_identity(t.skip(1), vals);
        assert(seq![t[0]] + t.skip(1) =~= t);
    }
}

/// Values beyond the first `placeholder_count(t)` play no part in the
/// substituted text: only the leading ones, in order, are consumed.
pub proof fn lemma_trailing_values_ignored(t: Seq<char>, vals: Seq<Seq<char>>)
    requires
        placeholder_count(t) <= vals.len(),
    ensures
        substituted(t, vals) == substituted(t, vals.take(placeholder_count(t) as int)),
    decreases t.len(),
{
    if t.len() < 2 {
    } else if t[0] == '{' && t[1] == '}' {
        let k = placeholder_count(t) as int;
        lemma_trailing_values_ignored(t.skip(2), vals.skip(1));
        assert(vals.skip(1).take(k - 1) =~= vals.take(k).skip(1));
        assert(vals.take(k)[0] == vals[0]);
    } else {
        lemma_trailing_values_ignored(t.skip(1), vals);
    }
}

/// Replace each `{}` occurrence in `expr` with the next value from `vals`.
/// Succeeds exactly when the values suffice for every occurrence; extra
/// trailing values are ignored. Fails with the arity error as soon as an
/// occurrence finds no value left, never reusing an earlier value.
pub fn insert_values(expr: &str, vals: &Vec<String>) -> (r: Result<String, Failure>)
    ensures
        placeholder_count(expr@) <= vals@.len() ==> (r matches Ok(s)
            && s@ == substituted(expr@, vals.deep_view())),
        placeholder_count(expr@) > vals@.len() ==> (r matches Err(f)
            && f is SubstitutionArity),
{
    let n = expr.unicode_len();
    let mut out = String::new();
    let mut i: usize = 0;
    let mut idx: usize = 0;
    proof {
        assert(expr@.skip(0) =~= expr@);
        assert(vals.deep_view().skip(0) =~= vals.deep_view());
        assert(out@ + substituted(expr@, vals.deep_view()) =~= substituted(expr@, vals.deep_view()));
    }
    while i < n
        invariant
            n == expr@.len(),
            i <= n,
            idx <= vals@.len(),
            vals.deep_view().len() == vals@.len(),
            idx + placeholder_count(expr@.skip(i as int)) == placeholder_count(expr@),
            out@ + substituted(expr@.skip(i as int), vals.deep_view().skip(idx as int))
                == substituted(expr@, vals.deep_view()),
        decreases n - i,
    {
        let ghost rest = expr@.skip(i as int);
        let ghost rest_vals = vals.deep_view().skip(idx as int);
        let c = expr.get_char(i);
        if i + 1 < n && c == '{' && expr.get_char(i + 1) == '}' {
            if idx >= vals.len() {
                assert(placeholder_count(rest) >= 1);
                return Err(Failure::SubstitutionArity);
            }
            let ghost out_before = out@;
            out.append(vals[idx].as_str());
            proof {
                assert(rest[0] == '{' && rest[1] == '}');
                assert(rest.skip(2) =~= expr@.skip(i + 2));
                assert(rest_vals.skip(1) =~= vals.deep_view().skip(idx + 1));
                assert(rest_vals[0] == vals.deep_view()[idx as int]);
                assert(vals.deep_view()[idx as int] == vals@[idx as int]@);
                assert(substituted(rest, rest_vals)
                    == rest_vals[0] + substituted(rest.skip(2), rest_vals.skip(1)));
                assert(out_before + (rest_vals[0] + substituted(rest.skip(2), rest_vals.skip(1)))
                    =~= (out_before + rest_vals[0]) + substituted(rest.skip(2), rest_vals.skip(1)));
            }
            idx = idx + 1;
            i = i + 2;
        } else {
            let piece = expr.substring_char(i, i + 1);
            let ghost out_before = out@;
            out.append(piece);
            proof {
                assert(piece@ =~= seq![rest[0]]);
                assert(rest.skip(1) =~= expr@.skip(i + 1));
                if rest.len() < 2 {
                    assert(placeholder_count(rest) == 0);
                    assert(placeholder_count(rest.skip(1)) == 0);
                    assert(substituted(rest, rest_vals) == rest);
                    assert(rest =~= seq![rest[0]]);
                    assert(substituted(rest.skip(1), rest_vals) =~= rest.skip(1));
                    assert(out_before + rest =~= (out_before + seq![rest[0]]) + rest.skip(1));
                } else {
                    assert(!(rest[0] == '{' && rest[1] == '}'));
                    assert(substituted(rest, rest_vals)
                        == seq![rest[0]] + substituted(rest.skip(1), rest_vals));
                    assert(out_before + (seq![rest[0]] + substituted(rest.skip(1), rest_vals))
                        =~= (out_before + seq![rest[0]]) + substituted(rest.skip(1), rest_vals));
                }
            }
            i = i + 1;
        }
    }
    proof {
        assert(expr@.skip(n as int) =~= Seq::<char>::empty());
        assert(placeholder_count(expr@.skip(n as int)) == 0);
        assert(substituted(expr@.skip(n as int), vals.deep_view().skip(idx as int))
            =~= Seq::<char>::empty());
        assert(out@ + Seq::<char>::empty() =~= out@);
    }
    Ok(out)
}

} // verus!
