//! The structured-document value a record header may hold, its mathematical
//! view, and resolution of a dotted selector path against a header value.
#![verifier::loop_isolation(false)]

use vstd::prelude::*;

use crate::text::{chars_eq, seqs_view};

verus! {

broadcast use vstd::std_specs::vec::group_vec_axioms, vstd::seq::group_seq_axioms;

/// A value inside a record's header document: the leaves are integers,
/// text and booleans; the interior nodes are arrays and tables.  A table
/// is a sequence of key/value bindings; a key is looked up by scanning for
/// its first binding.
#[derive(Debug, PartialEq, Eq)]
pub enum HeaderValue {
    Integer(i64),
    Text(Vec<char>),
    Boolean(bool),
    Array(Vec<HeaderValue>),
    Table(Vec<(Vec<char>, HeaderValue)>),
}

/// Mathematical view of a `HeaderValue`.
pub enum HeaderValueView {
    Integer(int),
    Text(Seq<char>),
    Boolean(bool),
    Array(Seq<HeaderValueView>),
    Table(Seq<(Seq<char>, HeaderValueView)>),
}

/// Mathematical view of a header value, computed structurally.  (The
/// out-of-range arm of each inner closure is never used; it keeps the
/// recursion visibly well-founded.)
pub open spec fn hv_view(h: HeaderValue) -> HeaderValueView
    decreases h,
{
    match h {
        HeaderValue::Integer(i) => HeaderValueView::Integer(i as int),
        HeaderValue::Text(t) => HeaderValueView::Text(t@),
        HeaderValue::Boolean(b) => HeaderValueView::Boolean(b),
        HeaderValue::Array(elems) => HeaderValueView::Array(
            Seq::new(
                elems@.len(),
                |i: int|
                    if 0 <= i < elems@.len() {
                        hv_view(elems@[i])
                    } else {
                        HeaderValueView::Boolean(false)
                    },
            ),
        ),
        HeaderValue::Table(pairs) => HeaderValueView::Table(
            Seq::new(
                pairs@.len(),
                |i: int|
                    if 0 <= i < pairs@.len() {
                        (pairs@[i].0@, hv_view(pairs@[i].1))
                    } else {
                        (Seq::empty(), HeaderValueView::Boolean(false))
                    },
            ),
        ),
    }
}

impl View for HeaderValue {
    type V = HeaderValueView;

    open spec fn view(&self) -> HeaderValueView {
        hv_view(*self)
    }
}

/// Why evaluating a query against a header failed.  Both cases abort the
/// evaluation of the record at hand; neither is a `false` verdict.
#[derive(Debug, PartialEq, Eq, Clone, Copy)]
pub enum EvalError {
    /// The dotted path led through a header value that is not a table, so
    /// the header cannot be read as the path expects.
    ReadTypeError,
    /// A comparison operator was applied to an operand shape it is not
    /// defined on (a list where a single literal is required).
    ComparatorTypeError,
}

/// The view of a table's bindings.
pub open spec fn table_view(pairs: Vec<(Vec<char>, HeaderValue)>) -> Seq<
    (Seq<char>, HeaderValueView),
> {
    Seq::new(pairs@.len(), |i: int| (pairs@[i].0@, pairs@[i].1@))
}

/// The value of the first binding of `key` at or after index `i`.
pub open spec fn spec_lookup_from(
    pairs: Seq<(Seq<char>, HeaderValueView)>,
    key: Seq<char>,
    i: int,
) -> Option<HeaderValueView>
    decreases pairs.len() - i,
{
    if i >= pairs.len() {
        None
    } else if pairs[i].0 == key {
        Some(pairs[i].1)
    } else {
        spec_lookup_from(pairs, key, i + 1)
    }
}

/// The value of the first binding of `key` in a table, if any.
pub open spec fn spec_lookup(pairs: Seq<(Seq<char>, HeaderValueView)>, key: Seq<char>) -> Option<
    HeaderValueView,
> {
    spec_lookup_from(pairs, key, 0)
}

/// Looks up the first binding of `key` in a table's bindings.
fn table_lookup<'a>(pairs: &'a Vec<(Vec<char>, HeaderValue)>, key: &Vec<char>) -> (r: Option<
    &'a HeaderValue,
>)
    ensures
        match r {
            Some(w) => spec_lookup(table_view(*pairs), key@) == Some(w@),
            None => spec_lookup(table_view(*pairs), key@) is None,
        },
{
    let n = pairs.len();
    let mut i: usize = 0;
    while i < n
        invariant
            i <= n,
            spec_lookup(table_view(*pairs), key@) == spec_lookup_from(
                table_view(*pairs),
                key@,
                i as int,
            ),
        decreases n - i,
    {
        if chars_eq(&pairs[i].0, key) {
            return Some(&pairs[i].1);
        }
        i = i + 1;
    }
    None
}

/// The segments of a dotted path: `cur` is the segment being read, `acc`
/// the segments already read.  A path of `n` dots has `n + 1` segments.
pub open spec fn spec_split_at(
    s: Seq<char>,
    i: int,
    cur: Seq<char>,
    acc: Seq<Seq<char>>,
) -> Seq<Seq<char>>
    decreases s.len() - i,
{
    if i >= s.len() {
        acc.push(cur)
    } else if s[i] == '.' {
        spec_split_at(s, i + 1, Seq::empty(), acc.push(cur))
    } else {
        spec_split_at(s, i + 1, cur.push(s[i]), acc)
    }
}

/// The segments of a dotted path, in order.
pub open spec fn spec_split_path(s: Seq<char>) -> Seq<Seq<char>> {
    spec_split_at(s, 0, Seq::empty(), Seq::empty())
}

/// Splits a dotted path into its segments.
fn split_path(path: &Vec<char>) -> (r: Vec<Vec<char>>)
    ensures
        seqs_view(r) == spec_split_path(path@),
{
    let n = path.len();
    let ghost s = path@;
    let mut cur: Vec<char> = Vec::new();
    let mut acc: Vec<Vec<char>> = Vec::new();
    let mut i: usize = 0;
    proof {
        assert(seqs_view(acc) =~= Seq::<Seq<char>>::empty());
    }
    while i < n
        invariant
            i <= n,
            spec_split_path(s) == spec_split_at(s, i as int, cur@, seqs_view(acc)),
        decreases n - i,
    {
        let c = path[i];
        if c == '.' {
            let ghost prev = seqs_view(acc);
            let ghost cv = cur@;
            acc.push(cur);
            proof {
                assert(seqs_view(acc) =~= prev.push(cv));
            }
            cur = Vec::new();
        } else {
            cur.push(c);
        }
        i = i + 1;
    }
    let ghost prev = seqs_view(acc);
    let ghost cv = cur@;
    acc.push(cur);
    proof {
        assert(seqs_view(acc) =~= prev.push(cv));
    }
    acc
}

/// Resolution of the segments from index `i` on against a value: a run of
/// table lookups.  A missing key resolves to nothing; a segment applied
/// to a value that is not a table is a read error.
pub open spec fn spec_resolve_from(segs: Seq<Seq<char>>, i: int, v: HeaderValueView) -> Result<
    Option<HeaderValueView>,
    EvalError,
>
    decreases segs.len() - i,
{
    if i >= segs.len() {
        Ok(Some(v))
    } else {
        match v {
            HeaderValueView::Table(pairs) => match spec_lookup(pairs, segs[i]) {
                None => Ok(None),
                Some(w) => spec_resolve_from(segs, i + 1, w),
            },
            _ => Err(EvalError::ReadTypeError),
        }
    }
}

/// Resolution of a dotted path against a header value.
pub open spec fn spec_resolve(path: Seq<char>, h: HeaderValueView) -> Result<
    Option<HeaderValueView>,
    EvalError,
> {
    spec_resolve_from(spec_split_path(path), 0, h)
}

/// Resolves a dotted path against a header value: each segment reads one
/// table level.  `Ok(None)` means the path does not exist; an error means
/// the path led through a value that is not a table.
pub fn resolve<'a>(path: &Vec<char>, header: &'a HeaderValue) -> (r: Result<
    Option<&'a HeaderValue>,
    EvalError,
>)
    ensures
        match r {
            Ok(Some(v)) => spec_resolve(path@, header@) == Ok::<_, EvalError>(Some(v@)),
            Ok(None) => spec_resolve(path@, header@) == Ok::<Option<HeaderValueView>, EvalError>(
                None,
            ),
            Err(e) => spec_resolve(path@, header@) == Err::<Option<HeaderValueView>, _>(e),
        },
{
    let segs = split_path(path);
    let ghost sv = seqs_view(segs);
    let n = segs.len();
    let mut cur: &'a HeaderValue = header;
    let mut i: usize = 0;
    while i < n
        invariant
            i <= n,
            spec_resolve_from(sv, 0, header@) == spec_resolve_from(sv, i as int, cur@),
        decreases n - i,
    {
        match cur {
            HeaderValue::Table(pairs) => {
                proof {
                    assert(cur@->Table_0 =~= table_view(*pairs));
                }
                match table_lookup(pairs, &segs[i]) {
                    Some(w) => {
                        cur = w;
                    },
                    None => {
                        return Ok(None);
                    },
                }
            },
            _ => {
                return Err(EvalError::ReadTypeError);
            },
        }
        i = i + 1;
    }
    Ok(Some(cur))
}


} // verus!
