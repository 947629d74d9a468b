//! Abstract syntax of the header filter language, together with the
//! mathematical view of each syntax node that the contracts speak of.
//!
//! A query is a flat, left-to-right chain: one first clause (here called
//! `Filter`, as the grammar's atomic unit) followed by any number of
//! combinator/clause pairs.  There is no precedence and no grouping.

use vstd::prelude::*;

verus! {

/// Unary prefix of a clause; the language has only negation.
#[derive(Debug, PartialEq, Eq, Clone, Copy)]
pub enum Unary {
    Not,
}

/// Comparison operator of a clause.
#[derive(Debug, PartialEq, Eq, Clone, Copy)]
pub enum CompareOp {
    OpIs,
    OpIn,
    OpEq,
    OpNeq,
    OpGte,
    OpLte,
    OpLt,
    OpGt,
}

/// Boolean combinator joining two clause results, applied left to right.
#[derive(Debug, PartialEq, Eq, Clone, Copy)]
pub enum Operator {
    Or,
    And,
    Xor,
}

/// Transform function a selector may wrap around a path.
#[derive(Debug, PartialEq, Eq, Clone, Copy)]
pub enum Function {
    Length,
    Keys,
    Values,
}

/// A literal operand value: a signed 64-bit integer or a piece of text.
#[derive(Debug, PartialEq, Eq)]
pub enum Value {
    Integer(i64),
    String(Vec<char>),
}

/// Mathematical view of a `Value`.
pub enum ValueView {
    Integer(int),
    String(Seq<char>),
}

impl View for Value {
    type V = ValueView;

    open spec fn view(&self) -> ValueView {
        match self {
            Value::Integer(i) => ValueView::Integer(*i as int),
            Value::String(s) => ValueView::String(s@),
        }
    }
}

/// The right-hand side of a comparison: a single literal or a list of
/// literals.  A list always comes from `[` ... `]` syntax.
#[derive(Debug, PartialEq, Eq)]
pub enum CompareValue {
    Value(Value),
    Values(Vec<Value>),
}

/// Mathematical view of a `CompareValue`.
pub enum CompareValueView {
    Value(ValueView),
    Values(Seq<ValueView>),
}

/// The views of the literals in `vs`, in order.
pub open spec fn values_view(vs: Vec<Value>) -> Seq<ValueView> {
    Seq::new(vs@.len(), |i: int| vs@[i]@)
}

impl View for CompareValue {
    type V = CompareValueView;

    open spec fn view(&self) -> CompareValueView {
        match self {
            CompareValue::Value(v) => CompareValueView::Value(v@),
            CompareValue::Values(vs) => CompareValueView::Values(values_view(*vs)),
        }
    }
}

/// A selector: a dotted path into the header document, either used
/// directly or wrapped in a transform function.  The path is opaque to the
/// grammar; it is interpreted only when resolved against a header.
#[derive(Debug, PartialEq, Eq)]
pub enum Selector {
    Direct(Vec<char>),
    Function(Function, Vec<char>),
}

/// Mathematical view of a `Selector`.
pub enum SelectorView {
    Direct(Seq<char>),
    Function(Function, Seq<char>),
}

impl View for Selector {
    type V = SelectorView;

    open spec fn view(&self) -> SelectorView {
        match self {
            Selector::Direct(p) => SelectorView::Direct(p@),
            Selector::Function(f, p) => SelectorView::Function(*f, p@),
        }
    }
}

impl Selector {
    /// The dotted path of the selector, whichever form it has.
    pub fn selector_str(&self) -> (r: &Vec<char>)
        ensures
            r@ == self.spec_path(),
    {
        match *self {
            Selector::Direct(ref s) => s,
            Selector::Function(_, ref s) => s,
        }
    }

    /// The transform function of the selector, if it has one.
    pub fn function(&self) -> (r: Option<&Function>)
        ensures
            match r {
                Some(f) => self is Function && *f == self->Function_0,
                None => self is Direct,
            },
    {
        match *self {
            Selector::Direct(_) => None,
            Selector::Function(ref f, _) => Some(f),
        }
    }

    /// The dotted path of the selector, as a sequence of characters.
    pub open spec fn spec_path(&self) -> Seq<char> {
        match self {
            Selector::Direct(p) => p@,
            Selector::Function(_, p) => p@,
        }
    }
}

impl SelectorView {
    /// The dotted path of the selector, whichever form it has.
    pub open spec fn path(&self) -> Seq<char> {
        match self {
            SelectorView::Direct(p) => *p,
            SelectorView::Function(_, p) => *p,
        }
    }
}

/// One atomic clause of a query: optional negation, a selector, a
/// comparison operator and an operand.
#[derive(Debug, PartialEq, Eq)]
pub struct Filter {
    pub unary: Option<Unary>,
    pub selector: Selector,
    pub compare_operator: CompareOp,
    pub compare_value: CompareValue,
}

/// Mathematical view of a `Filter`.
pub struct FilterView {
    pub unary: Option<Unary>,
    pub selector: SelectorView,
    pub compare_operator: CompareOp,
    pub compare_value: CompareValueView,
}

impl View for Filter {
    type V = FilterView;

    open spec fn view(&self) -> FilterView {
        FilterView {
            unary: self.unary,
            selector: self.selector@,
            compare_operator: self.compare_operator,
            compare_value: self.compare_value@,
        }
    }
}

/// A whole query: the first clause and the chain of combinator/clause
/// pairs that follow it, in source order.
#[derive(Debug, PartialEq, Eq)]
pub struct Query {
    pub filter: Filter,
    pub next_filters: Vec<(Operator, Filter)>,
}

/// Mathematical view of a `Query`.
pub struct QueryView {
    pub filter: FilterView,
    pub next_filters: Seq<(Operator, FilterView)>,
}

/// The views of the combinator/clause pairs in `ps`, in order.
pub open spec fn pairs_view(ps: Vec<(Operator, Filter)>) -> Seq<(Operator, FilterView)> {
    Seq::new(ps@.len(), |i: int| (ps@[i].0, ps@[i].1@))
}

impl View for Query {
    type V = QueryView;

    open spec fn view(&self) -> QueryView {
        QueryView { filter: self.filter@, next_filters: pairs_view(self.next_filters) }
    }
}

} // verus!
