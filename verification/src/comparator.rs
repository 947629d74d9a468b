//! The typed comparator: one comparison operator applied to a resolved
//! header value and a literal or list operand, yielding a boolean.
//!
//! The typing discipline is deliberate and exact: a type mismatch between
//! operand and value is `false`, never an error, while applying `is`,
//! equality or an ordering operator to a list operand is a fatal
//! comparator error, never `false`.
#![verifier::loop_isolation(false)]

use vstd::prelude::*;

use crate::ast::{CompareOp, CompareValue, Value, ValueView, CompareValueView, values_view};
use crate::header::{EvalError, HeaderValue, HeaderValueView};
use crate::text::{chars_contains, chars_eq, text_contains};

verus! {

broadcast use vstd::std_specs::vec::group_vec_axioms, vstd::seq::group_seq_axioms;

/// What one comparison means.  Each row of the table: the operator, the
/// operand shape, and the value shape it is defined on; every shape
/// combination not listed is `false`, except the list-operand cases of
/// `is`, equality and the orderings, which are comparator errors.
pub open spec fn spec_compare(op: CompareOp, cv: CompareValueView, v: HeaderValueView) -> Result<
    bool,
    EvalError,
> {
    match op {
        CompareOp::OpIs => match cv {
            CompareValueView::Values(_) => Err(EvalError::ComparatorTypeError),
            CompareValueView::Value(lit) => match lit {
                ValueView::Integer(_) => Ok(v is Integer),
                ValueView::String(_) => Ok(v is Text),
            },
        },
        CompareOp::OpIn => match (cv, v) {
            (
                CompareValueView::Value(ValueView::Integer(i)),
                HeaderValueView::Integer(j),
            ) => Ok(i == j),
            // the operand is the haystack; the header value is the needle
            (CompareValueView::Value(ValueView::String(st)), HeaderValueView::Text(b)) => Ok(
                text_contains(st, b),
            ),
            (CompareValueView::Value(_), _) => Ok(false),
            (CompareValueView::Values(vs), HeaderValueView::Integer(j)) => Ok(
                exists|k: int| 0 <= k < vs.len() && vs[k] == ValueView::Integer(j),
            ),
            (CompareValueView::Values(vs), HeaderValueView::Text(b)) => Ok(
                exists|k: int| 0 <= k < vs.len() && vs[k] == ValueView::String(b),
            ),
            (CompareValueView::Values(_), _) => Ok(false),
        },
        CompareOp::OpEq => match (cv, v) {
            (
                CompareValueView::Value(ValueView::Integer(i)),
                HeaderValueView::Integer(j),
            ) => Ok(i == j),
            (CompareValueView::Value(ValueView::String(st)), HeaderValueView::Text(b)) => Ok(
                st == b,
            ),
            (CompareValueView::Value(_), _) => Ok(false),
            (CompareValueView::Values(_), _) => Err(EvalError::ComparatorTypeError),
        },
        CompareOp::OpNeq => match (cv, v) {
            (
                CompareValueView::Value(ValueView::Integer(i)),
                HeaderValueView::Integer(j),
            ) => Ok(i != j),
            (CompareValueView::Value(_), _) => Ok(false),
            (CompareValueView::Values(_), _) => Err(EvalError::ComparatorTypeError),
        },
        CompareOp::OpGte => match (cv, v) {
            (
                CompareValueView::Value(ValueView::Integer(i)),
                HeaderValueView::Integer(j),
            ) => Ok(i >= j),
            (CompareValueView::Value(_), _) => Ok(false),
            (CompareValueView::Values(_), _) => Err(EvalError::ComparatorTypeError),
        },
        CompareOp::OpLte => match (cv, v) {
            (
                CompareValueView::Value(ValueView::Integer(i)),
                HeaderValueView::Integer(j),
            ) => Ok(i <= j),
            (CompareValueView::Value(_), _) => Ok(false),
            (CompareValueView::Values(_), _) => Err(EvalError::ComparatorTypeError),
        },
        CompareOp::OpLt => match (cv, v) {
            (
                CompareValueView::Value(ValueView::Integer(i)),
                HeaderValueView::Integer(j),
            ) => Ok(i < j),
            (CompareValueView::Value(_), _) => Ok(false),
            (CompareValueView::Values(_), _) => Err(EvalError::ComparatorTypeError),
        },
        CompareOp::OpGt => match (cv, v) {
            (
                CompareValueView::Value(ValueView::Integer(i)),
                HeaderValueView::Integer(j),
            ) => Ok(i > j),
            (CompareValueView::Value(_), _) => Ok(false),
            (CompareValueView::Values(_), _) => Err(EvalError::ComparatorTypeError),
        },
    }
}

/// Whether some literal in `vs` is the integer `j`.
fn any_int_equal(vs: &Vec<Value>, j: i64) -> (r: bool)
    ensures
        r == exists|k: int|
            0 <= k < values_view(*vs).len() && values_view(*vs)[k] == ValueView::Integer(j as int),
{
    let n = vs.len();
    let mut idx: usize = 0;
    while idx < n
        invariant
            idx <= n,
            forall|k: int|
                0 <= k < idx ==> values_view(*vs)[k] != ValueView::Integer(j as int),
        decreases n - idx,
    {
        match &vs[idx] {
            Value::Integer(i) => {
                if *i == j {
                    proof {
                        assert(values_view(*vs)[idx as int] == ValueView::Integer(j as int));
                    }
                    return true;
                }
            },
            Value::String(_) => {},
        }
        proof {
            assert(values_view(*vs)[idx as int] != ValueView::Integer(j as int));
        }
        idx = idx + 1;
    }
    false
}

/// Whether some literal in `vs` is exactly the text `b`.
fn any_string_equal(vs: &Vec<Value>, b: &Vec<char>) -> (r: bool)
    ensures
        r == exists|k: int|
            0 <= k < values_view(*vs).len() && values_view(*vs)[k] == ValueView::String(b@),
{
    let n = vs.len();
    let mut idx: usize = 0;
    while idx < n
        invariant
            idx <= n,
            forall|k: int| 0 <= k < idx ==> values_view(*vs)[k] != ValueView::String(b@),
        decreases n - idx,
    {
        match &vs[idx] {
            Value::String(st) => {
                if chars_eq(st, b) {
                    proof {
                        assert(values_view(*vs)[idx as int] == ValueView::String(b@));
                    }
                    return true;
                }
            },
            Value::Integer(_) => {},
        }
        proof {
            assert(values_view(*vs)[idx as int] != ValueView::String(b@));
        }
        idx = idx + 1;
    }
    false
}

/// Compares against an integer header value.
fn compare_int(op: &CompareOp, cv: &CompareValue, j: i64) -> (r: Result<bool, EvalError>)
    ensures
        r == spec_compare(*op, cv@, HeaderValueView::Integer(j as int)),
{
    match op {
        CompareOp::OpIs => match cv {
            CompareValue::Values(_) => Err(EvalError::ComparatorTypeError),
            CompareValue::Value(Value::Integer(_)) => Ok(true),
            CompareValue::Value(Value::String(_)) => Ok(false),
        },
        CompareOp::OpIn => match cv {
            CompareValue::Value(Value::Integer(i)) => Ok(*i == j),
            CompareValue::Value(Value::String(_)) => Ok(false),
            CompareValue::Values(vs) => Ok(any_int_equal(vs, j)),
        },
        CompareOp::OpEq => match cv {
            CompareValue::Value(Value::Integer(i)) => Ok(*i == j),
            CompareValue::Value(_) => Ok(false),
            CompareValue::Values(_) => Err(EvalError::ComparatorTypeError),
        },
        CompareOp::OpNeq => match cv {
            CompareValue::Value(Value::Integer(i)) => Ok(*i != j),
            CompareValue::Value(_) => Ok(false),
            CompareValue::Values(_) => Err(EvalError::ComparatorTypeError),
        },
        CompareOp::OpGte => match cv {
            CompareValue::Value(Value::Integer(i)) => Ok(*i >= j),
            CompareValue::Value(_) => Ok(false),
            CompareValue::Values(_) => Err(EvalError::ComparatorTypeError),
        },
        CompareOp::OpLte => match cv {
            CompareValue::Value(Value::Integer(i)) => Ok(*i <= j),
            CompareValue::Value(_) => Ok(false),
            CompareValue::Values(_) => Err(EvalError::ComparatorTypeError),
        },
        CompareOp::OpLt => match cv {
            CompareValue::Value(Value::Integer(i)) => Ok(*i < j),
            CompareValue::Value(_) => Ok(false),
            CompareValue::Values(_) => Err(EvalError::ComparatorTypeError),
        },
        CompareOp::OpGt => match cv {
            CompareValue::Value(Value::Integer(i)) => Ok(*i > j),
            CompareValue::Value(_) => Ok(false),
            CompareValue::Values(_) => Err(EvalError::ComparatorTypeError),
        },
    }
}

/// Compares against a text header value.
fn compare_text(op: &CompareOp, cv: &CompareValue, b: &Vec<char>) -> (r: Result<bool, EvalError>)
    ensures
        r == spec_compare(*op, cv@, HeaderValueView::Text(b@)),
{
    match op {
        CompareOp::OpIs => match cv {
            CompareValue::Values(_) => Err(EvalError::ComparatorTypeError),
            CompareValue::Value(Value::Integer(_)) => Ok(false),
            CompareValue::Value(Value::String(_)) => Ok(true),
        },
        CompareOp::OpIn => match cv {
            CompareValue::Value(Value::String(st)) => Ok(chars_contains(st, b)),
            CompareValue::Value(Value::Integer(_)) => Ok(false),
            CompareValue::Values(vs) => Ok(any_string_equal(vs, b)),
        },
        CompareOp::OpEq => match cv {
            CompareValue::Value(Value::String(st)) => Ok(chars_eq(st, b)),
            CompareValue::Value(_) => Ok(false),
            CompareValue::Values(_) => Err(EvalError::ComparatorTypeError),
        },
        CompareOp::OpNeq | CompareOp::OpGte | CompareOp::OpLte | CompareOp::OpLt
            | CompareOp::OpGt => match cv {
            CompareValue::Value(_) => Ok(false),
            CompareValue::Values(_) => Err(EvalError::ComparatorTypeError),
        },
    }
}

/// Compares against a header value that is neither an integer nor text
/// (an array, a table or a boolean): no operand matches such a value, so
/// the verdict depends only on the operator and the operand shape.
pub(crate) fn compare_unmatched(op: &CompareOp, cv: &CompareValue, v: Ghost<HeaderValueView>) -> (r:
    Result<bool, EvalError>)
    requires
        !(v@ is Integer),
        !(v@ is Text),
    ensures
        r == spec_compare(*op, cv@, v@),
{
    match op {
        CompareOp::OpIs => match cv {
            CompareValue::Values(_) => Err(EvalError::ComparatorTypeError),
            CompareValue::Value(_) => Ok(false),
        },
        CompareOp::OpIn => Ok(false),
        CompareOp::OpEq | CompareOp::OpNeq | CompareOp::OpGte | CompareOp::OpLte
            | CompareOp::OpLt | CompareOp::OpGt => match cv {
            CompareValue::Value(_) => Ok(false),
            CompareValue::Values(_) => Err(EvalError::ComparatorTypeError),
        },
    }
}

/// Compares against an integer header value whose magnitude is a length
/// (the result of the `length` transform), which need not fit a signed
/// 64-bit integer.
pub(crate) fn compare_count(op: &CompareOp, cv: &CompareValue, count: usize) -> (r: Result<
    bool,
    EvalError,
>)
    ensures
        r == spec_compare(*op, cv@, HeaderValueView::Integer(count as int)),
{
    if count as u64 <= 0x7fff_ffff_ffff_ffffu64 {
        compare_int(op, cv, count as i64)
    } else {
        match op {
            CompareOp::OpIs => match cv {
                CompareValue::Values(_) => Err(EvalError::ComparatorTypeError),
                CompareValue::Value(Value::Integer(_)) => Ok(true),
                CompareValue::Value(Value::String(_)) => Ok(false),
            },
            CompareOp::OpIn => match cv {
                CompareValue::Value(_) => Ok(false),
                CompareValue::Values(vs) => {
                    // every list element is a 64-bit literal, so none can
                    // equal this larger count
                    proof {
                        assert forall|k: int| 0 <= k < values_view(*vs).len() implies values_view(
                            *vs,
                        )[k] != ValueView::Integer(count as int) by {
                            assert(values_view(*vs)[k] == vs@[k]@);
                            match vs@[k] {
                                Value::Integer(x) => {
                                    assert(vs@[k]@ == ValueView::Integer(x as int));
                                },
                                Value::String(_) => {},
                            }
                        }
                    }
                    Ok(false)
                },
            },
            CompareOp::OpEq => match cv {
                CompareValue::Value(_) => Ok(false),
                CompareValue::Values(_) => Err(EvalError::ComparatorTypeError),
            },
            CompareOp::OpNeq => match cv {
                CompareValue::Value(Value::Integer(_)) => Ok(true),
                CompareValue::Value(_) => Ok(false),
                CompareValue::Values(_) => Err(EvalError::ComparatorTypeError),
            },
            CompareOp::OpGte | CompareOp::OpGt => match cv {
                CompareValue::Value(_) => Ok(false),
                CompareValue::Values(_) => Err(EvalError::ComparatorTypeError),
            },
            CompareOp::OpLte | CompareOp::OpLt => match cv {
                CompareValue::Value(Value::Integer(_)) => Ok(true),
                CompareValue::Value(_) => Ok(false),
                CompareValue::Values(_) => Err(EvalError::ComparatorTypeError),
            },
        }
    }
}

/// Compares against any header value.
pub(crate) fn compare(op: &CompareOp, cv: &CompareValue, val: &HeaderValue) -> (r: Result<
    bool,
    EvalError,
>)
    ensures
        r == spec_compare(*op, cv@, val@),
{
    match val {
        HeaderValue::Integer(j) => compare_int(op, cv, *j),
        HeaderValue::Text(b) => compare_text(op, cv, b),
        _ => compare_unmatched(op, cv, Ghost(val@)),
    }
}

/// One comparison operator paired with one operand, ready to be applied
/// to resolved header values.
pub struct Comparator<'a>(pub &'a CompareOp, pub &'a CompareValue);

impl<'a> Comparator<'a> {
    /// Applies the comparison to a header value.
    pub fn filter(&self, val: &HeaderValue) -> (r: Result<bool, EvalError>)
        ensures
            r == spec_compare(*self.0, self.1@, val@),
    {
        compare(self.0, self.1, val)
    }
}

} // verus!
