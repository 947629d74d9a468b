//! The query evaluator: one clause, then the whole left-to-right chain,
//! applied to a single record's header.
//!
//! A clause resolves its selector, applies the transform function if one
//! is present, runs the comparator, and finally applies negation.  A path
//! that does not exist and a `keys`/`values` transform on a value that is
//! not a table are `false` without negation; a read error and a
//! comparator type error abort the evaluation of the record.
#![verifier::loop_isolation(false)]

use vstd::prelude::*;

use crate::ast::{Filter, FilterView, Function, Operator, Query, Selector, SelectorView, Unary};
use crate::comparator::{compare, compare_count, compare_unmatched, spec_compare};
use crate::header::{spec_resolve, resolve, EvalError, HeaderValue, HeaderValueView};

verus! {

broadcast use vstd::std_specs::vec::group_vec_axioms, vstd::seq::group_seq_axioms;

/// What the `length` transform measures: the element count of an array,
/// the character count of text, and `1` for anything else (a table
/// included).
pub open spec fn spec_length_of(v: HeaderValueView) -> int {
    match v {
        HeaderValueView::Array(elems) => elems.len() as int,
        HeaderValueView::Text(t) => t.len() as int,
        _ => 1,
    }
}

/// What the `keys` transform produces from a table: its keys, as text
/// values, in binding order.
pub open spec fn spec_keys_of(pairs: Seq<(Seq<char>, HeaderValueView)>) -> Seq<HeaderValueView> {
    Seq::new(pairs.len(), |i: int| HeaderValueView::Text(pairs[i].0))
}

/// What the `values` transform produces from a table: its values, in
/// binding order, each keeping its own type.
pub open spec fn spec_values_of(pairs: Seq<(Seq<char>, HeaderValueView)>) -> Seq<HeaderValueView> {
    Seq::new(pairs.len(), |i: int| pairs[i].1)
}

/// Negation applied to a comparison that succeeded; an error passes
/// through untouched.
pub open spec fn spec_negate(negate: bool, r: Result<bool, EvalError>) -> Result<bool, EvalError> {
    match r {
        Err(e) => Err(e),
        Ok(b) => Ok(if negate {
            !b
        } else {
            b
        }),
    }
}

/// What one clause yields on a header: resolve the path (a missing path
/// is `false`), apply the transform (`keys`/`values` on a non-table is
/// `false`), compare, and negate.  Negation applies only to the
/// comparator's verdict, never to the two built-in `false` cases.
pub open spec fn spec_clause_eval(c: FilterView, h: HeaderValueView) -> Result<bool, EvalError> {
    let negate = c.unary is Some;
    match spec_resolve(c.selector.path(), h) {
        Err(e) => Err(e),
        Ok(None) => Ok(false),
        Ok(Some(v)) => match c.selector {
            SelectorView::Direct(_) => spec_negate(
                negate,
                spec_compare(c.compare_operator, c.compare_value, v),
            ),
            SelectorView::Function(f, _) => match f {
                Function::Length => spec_negate(
                    negate,
                    spec_compare(
                        c.compare_operator,
                        c.compare_value,
                        HeaderValueView::Integer(spec_length_of(v)),
                    ),
                ),
                Function::Keys => match v {
                    HeaderValueView::Table(pairs) => spec_negate(
                        negate,
                        spec_compare(
                            c.compare_operator,
                            c.compare_value,
                            HeaderValueView::Array(spec_keys_of(pairs)),
                        ),
                    ),
                    _ => Ok(false),
                },
                Function::Values => match v {
                    HeaderValueView::Table(pairs) => spec_negate(
                        negate,
                        spec_compare(
                            c.compare_operator,
                            c.compare_value,
                            HeaderValueView::Array(spec_values_of(pairs)),
                        ),
                    ),
                    _ => Ok(false),
                },
            },
        },
    }
}

/// One combinator applied to the running result and a clause result.
pub open spec fn spec_combine(op: Operator, a: bool, b: bool) -> bool {
    match op {
        Operator::Or => a || b,
        Operator::And => a && b,
        Operator::Xor => (a && !b) || (!a && b),
    }
}

/// The fold over the chain from index `i` on, with running result `acc`.
/// Every clause is evaluated; the first error aborts the fold.
pub open spec fn spec_query_eval_from(
    rest: Seq<(Operator, FilterView)>,
    i: int,
    acc: bool,
    h: HeaderValueView,
) -> Result<bool, EvalError>
    decreases rest.len() - i,
{
    if i >= rest.len() {
        Ok(acc)
    } else {
        match spec_clause_eval(rest[i].1, h) {
            Err(e) => Err(e),
            Ok(b) => spec_query_eval_from(rest, i + 1, spec_combine(rest[i].0, acc, b), h),
        }
    }
}

/// What a whole query yields on a header: the first clause seeds the
/// running result, then each combinator/clause pair folds into it from
/// left to right.
pub open spec fn spec_query_eval(q: crate::ast::QueryView, h: HeaderValueView) -> Result<
    bool,
    EvalError,
> {
    match spec_clause_eval(q.filter, h) {
        Err(e) => Err(e),
        Ok(first) => spec_query_eval_from(q.next_filters, 0, first, h),
    }
}

impl Filter {
    /// Evaluates this clause against a header value.
    pub fn filter(&self, header: &HeaderValue) -> (r: Result<bool, EvalError>)
        ensures
            r == spec_clause_eval(self@, header@),
    {
        let path = self.selector.selector_str();
        let resolved = resolve(path, header);
        match resolved {
            Err(e) => Err(e),
            Ok(None) => Ok(false),
            Ok(Some(v)) => {
                let compared = match &self.selector {
                    Selector::Direct(_) => compare(
                        &self.compare_operator,
                        &self.compare_value,
                        v,
                    ),
                    Selector::Function(f, _) => match f {
                        Function::Length => {
                            let count: usize = match v {
                                HeaderValue::Array(elems) => elems.len(),
                                HeaderValue::Text(t) => t.len(),
                                _ => 1,
                            };
                            compare_count(&self.compare_operator, &self.compare_value, count)
                        },
                        Function::Keys => match v {
                            HeaderValue::Table(_) => compare_unmatched(
                                &self.compare_operator,
                                &self.compare_value,
                                Ghost(HeaderValueView::Array(spec_keys_of(v@->Table_0))),
                            ),
                            _ => {
                                return Ok(false);
                            },
                        },
                        Function::Values => match v {
                            HeaderValue::Table(_) => compare_unmatched(
                                &self.compare_operator,
                                &self.compare_value,
                                Ghost(HeaderValueView::Array(spec_values_of(v@->Table_0))),
                            ),
                            _ => {
                                return Ok(false);
                            },
                        },
                    },
                };
                match compared {
                    Err(e) => Err(e),
                    Ok(b) => match self.unary {
                        Some(Unary::Not) => Ok(!b),
                        None => Ok(b),
                    },
                }
            },
        }
    }
}

impl Query {
    /// Evaluates this query against a header value: the record's
    /// admit/reject verdict, or the error that aborted the evaluation.
    pub fn filter(&self, header: &HeaderValue) -> (r: Result<bool, EvalError>)
        ensures
            r == spec_query_eval(self@, header@),
    {
        let mut acc: bool = match self.filter.filter(header) {
            Err(e) => {
                return Err(e);
            },
            Ok(b) => b,
        };
        let n = self.next_filters.len();
        let ghost rest = self@.next_filters;
        let mut i: usize = 0;
        while i < n
            invariant
                i <= n,
                spec_query_eval(self@, header@) == spec_query_eval_from(
                    rest,
                    i as int,
                    acc,
                    header@,
                ),
            decreases n - i,
        {
            let pair = &self.next_filters[i];
            let b = match pair.1.filter(header) {
                Err(e) => {
                    return Err(e);
                },
                Ok(b) => b,
            };
            acc = match pair.0 {
                Operator::Or => acc || b,
                Operator::And => acc && b,
                Operator::Xor => (acc && !b) || (!acc && b),
            };
            i = i + 1;
        }
        Ok(acc)
    }
}


/// Evaluates a parsed query against one record's header: the record's
/// admit/reject verdict, or the error that aborted the evaluation.
pub fn evaluate(query: &Query, header: &HeaderValue) -> (r: Result<bool, EvalError>)
    ensures
        r == spec_query_eval(query@, header@),
{
    query.filter(header)
}

/// A clause whose path does not exist in the header evaluates to
/// `false`, never to an error, whatever its negation, operator and
/// operand are.
pub proof fn lemma_missing_path_is_false(c: FilterView, h: HeaderValueView)
    requires
        spec_resolve(c.selector.path(), h) == Ok::<Option<HeaderValueView>, EvalError>(None),
    ensures
        spec_clause_eval(c, h) == Ok::<bool, EvalError>(false),
{
}

/// A `keys` or `values` transform applied to a header value that is not
/// a table evaluates the clause to `false`, never to an error, and
/// negation does not apply to that verdict.
pub proof fn lemma_keys_values_non_table(c: FilterView, h: HeaderValueView, v: HeaderValueView)
    requires
        c.selector matches SelectorView::Function(f, _) && (f == Function::Keys || f
            == Function::Values),
        spec_resolve(c.selector.path(), h) == Ok::<Option<HeaderValueView>, EvalError>(Some(v)),
        !(v is Table),
    ensures
        spec_clause_eval(c, h) == Ok::<bool, EvalError>(false),
{
}

} // verus!
