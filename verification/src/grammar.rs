//! The grammar of the header filter language and its parser.
//!
//! The meaning of the grammar is written down once, as a family of
//! specification functions over a sequence of characters; the executable
//! parser is proved to return exactly what those functions say, both on
//! success and on failure.
//!
//! Canonical shape of the language:
//!
//! ```text
//! query      := clause (combinator clause)*
//! clause     := ("not")? selector compare_op operand
//! selector   := function "(" path ")" | path
//! function   := "length" | "keys" | "values"
//! path       := run of non-whitespace characters, length >= 1
//! compare_op := "is" | "in" | "==/eq" | "!=/neq" | ">=" | "<=" | "<" | ">"
//! operand    := list | literal
//! list       := "[" (literal ","?)* "]"
//! literal    := integer | text
//! integer    := ("+"|"-")? digit+
//! text       := '"' (any character except '"')* '"'
//! combinator := "or" | "and" | "xor"
//! ```
//!
//! Adjacent tokens of a clause (the optional `not`, the selector, the
//! operator, the operand) and of a chain (clause, combinator) must be
//! separated by at least one whitespace character; a path is lexed
//! greedily up to the next whitespace, so no weaker rule would be
//! unambiguous.  Inside a list, whitespace may stand anywhere between the
//! brackets, the literals and the optional commas.
#![verifier::loop_isolation(false)]

use vstd::prelude::*;

use crate::ast::{Unary, CompareOp, Operator, Function, Value, ValueView, CompareValue, CompareValueView, Selector, SelectorView, Filter, FilterView, Query, QueryView, values_view, pairs_view};
use crate::text::is_match_at;

verus! {

broadcast use vstd::std_specs::vec::group_vec_axioms, vstd::seq::group_seq_axioms;

/// Token class a failed parse was looking for.
#[derive(Debug, PartialEq, Eq, Clone, Copy)]
pub enum Expected {
    Whitespace,
    Unary,
    Selector,
    CompareOp,
    Operand,
    Combinator,
    Function,
    Digit,
    Quote,
    Bracket,
    Integer,
}

/// Why a query string could not be parsed: either the text stopped making
/// sense at `position`, or it ended while more input was still required.
#[derive(Debug, PartialEq, Eq, Clone, Copy)]
pub enum ParseError {
    SyntaxError { position: usize, expected: Expected },
    IncompleteInput { expected: Expected },
}

/// The whitespace characters of the grammar (the ASCII ones).
pub open spec fn is_ws_char(c: char) -> bool {
    c == ' ' || c == '\t' || c == '\n' || c == '\r' || c == '\u{c}'
}

/// The decimal digits.
pub open spec fn is_digit_char(c: char) -> bool {
    48 <= c as u32 <= 57
}

/// The numeric value of a decimal digit.
pub open spec fn digit_val(c: char) -> int {
    c as u32 - 48
}

/// The first position at or after `i` that does not hold whitespace.
pub open spec fn skip_ws(s: Seq<char>, i: int) -> int
    decreases s.len() - i,
{
    if i < s.len() && is_ws_char(s[i]) {
        skip_ws(s, i + 1)
    } else {
        i
    }
}

/// The first position at or after `i` that does not hold a digit.
pub open spec fn digits_end(s: Seq<char>, i: int) -> int
    decreases s.len() - i,
{
    if i < s.len() && is_digit_char(s[i]) {
        digits_end(s, i + 1)
    } else {
        i
    }
}

/// The value of the digits in `s[i..j]`, appended to the accumulator
/// `acc` as further decimal digits.
pub open spec fn digits_value(s: Seq<char>, i: int, j: int, acc: int) -> int
    decreases j - i,
{
    if i < j {
        digits_value(s, i + 1, j, acc * 10 + digit_val(s[i]))
    } else {
        acc
    }
}

/// The position of the first `"` at or after `i`.
pub open spec fn quote_end(s: Seq<char>, i: int) -> int
    decreases s.len() - i,
{
    if i < s.len() && s[i] != '"' {
        quote_end(s, i + 1)
    } else {
        i
    }
}

/// The end of a direct path starting at `i`: the first position holding
/// whitespace, or the end of the input.
pub open spec fn path_end(s: Seq<char>, i: int) -> int
    decreases s.len() - i,
{
    if i < s.len() && !is_ws_char(s[i]) {
        path_end(s, i + 1)
    } else {
        i
    }
}

/// The end of a parenthesised path starting at `i`: the first position
/// holding `)` or whitespace, or the end of the input.
pub open spec fn fn_path_end(s: Seq<char>, i: int) -> int
    decreases s.len() - i,
{
    if i < s.len() && s[i] != ')' && !is_ws_char(s[i]) {
        fn_path_end(s, i + 1)
    } else {
        i
    }
}

pub open spec fn tok_not() -> Seq<char> {
    seq!['n', 'o', 't']
}

pub open spec fn tok_is() -> Seq<char> {
    seq!['i', 's']
}

pub open spec fn tok_in() -> Seq<char> {
    seq!['i', 'n']
}

pub open spec fn tok_eq() -> Seq<char> {
    seq!['=', '=', '/', 'e', 'q']
}

pub open spec fn tok_neq() -> Seq<char> {
    seq!['!', '=', '/', 'n', 'e', 'q']
}

pub open spec fn tok_gte() -> Seq<char> {
    seq!['>', '=']
}

pub open spec fn tok_lte() -> Seq<char> {
    seq!['<', '=']
}

pub open spec fn tok_lt() -> Seq<char> {
    seq!['<']
}

pub open spec fn tok_gt() -> Seq<char> {
    seq!['>']
}

pub open spec fn tok_or() -> Seq<char> {
    seq!['o', 'r']
}

pub open spec fn tok_and() -> Seq<char> {
    seq!['a', 'n', 'd']
}

pub open spec fn tok_xor() -> Seq<char> {
    seq!['x', 'o', 'r']
}

pub open spec fn tok_length() -> Seq<char> {
    seq!['l', 'e', 'n', 'g', 't', 'h']
}

pub open spec fn tok_keys() -> Seq<char> {
    seq!['k', 'e', 'y', 's']
}

pub open spec fn tok_values() -> Seq<char> {
    seq!['v', 'a', 'l', 'u', 'e', 's']
}

/// The parse error for a failure at position `i`: the input either ended
/// there, or holds unexpected text there.
pub open spec fn fail_at(s: Seq<char>, i: int, exp: Expected) -> ParseError {
    if i >= s.len() {
        ParseError::IncompleteInput { expected: exp }
    } else {
        ParseError::SyntaxError { position: i as usize, expected: exp }
    }
}

/// The unary negation token at position `i`.
pub open spec fn spec_unary(s: Seq<char>, i: int) -> Result<(int, Unary), ParseError> {
    if is_match_at(s, tok_not(), i) {
        Ok((i + 3, Unary::Not))
    } else {
        Err(fail_at(s, i, Expected::Unary))
    }
}

/// The comparison operator at position `i`.  Alternatives are tried in
/// order, with an operator that is a prefix of another tried after it.
pub open spec fn spec_compare_op(s: Seq<char>, i: int) -> Result<(int, CompareOp), ParseError> {
    if is_match_at(s, tok_is(), i) {
        Ok((i + 2, CompareOp::OpIs))
    } else if is_match_at(s, tok_in(), i) {
        Ok((i + 2, CompareOp::OpIn))
    } else if is_match_at(s, tok_eq(), i) {
        Ok((i + 5, CompareOp::OpEq))
    } else if is_match_at(s, tok_neq(), i) {
        Ok((i + 6, CompareOp::OpNeq))
    } else if is_match_at(s, tok_gte(), i) {
        Ok((i + 2, CompareOp::OpGte))
    } else if is_match_at(s, tok_lte(), i) {
        Ok((i + 2, CompareOp::OpLte))
    } else if is_match_at(s, tok_lt(), i) {
        Ok((i + 1, CompareOp::OpLt))
    } else if is_match_at(s, tok_gt(), i) {
        Ok((i + 1, CompareOp::OpGt))
    } else {
        Err(fail_at(s, i, Expected::CompareOp))
    }
}

/// The boolean combinator at position `i`.
pub open spec fn spec_operator(s: Seq<char>, i: int) -> Result<(int, Operator), ParseError> {
    if is_match_at(s, tok_or(), i) {
        Ok((i + 2, Operator::Or))
    } else if is_match_at(s, tok_and(), i) {
        Ok((i + 3, Operator::And))
    } else if is_match_at(s, tok_xor(), i) {
        Ok((i + 3, Operator::Xor))
    } else {
        Err(fail_at(s, i, Expected::Combinator))
    }
}

/// The transform function name at position `i`.
pub open spec fn spec_function(s: Seq<char>, i: int) -> Result<(int, Function), ParseError> {
    if is_match_at(s, tok_length(), i) {
        Ok((i + 6, Function::Length))
    } else if is_match_at(s, tok_keys(), i) {
        Ok((i + 4, Function::Keys))
    } else if is_match_at(s, tok_values(), i) {
        Ok((i + 6, Function::Values))
    } else {
        Err(fail_at(s, i, Expected::Function))
    }
}

/// The signed 64-bit integer literal at position `i`: an optional sign,
/// then one or more digits.  A literal whose value does not fit in a
/// signed 64-bit integer is a syntax error at the first digit.
pub open spec fn spec_integer(s: Seq<char>, i: int) -> Result<(int, i64), ParseError> {
    let negative = i < s.len() && s[i] == '-';
    let signed = i < s.len() && (s[i] == '+' || s[i] == '-');
    let d0 = if signed {
        i + 1
    } else {
        i
    };
    let e = digits_end(s, d0);
    if e == d0 {
        Err(fail_at(s, d0, Expected::Digit))
    } else {
        let m = digits_value(s, d0, e, 0);
        if negative {
            if m > 0x8000_0000_0000_0000 {
                Err(ParseError::SyntaxError { position: d0 as usize, expected: Expected::Integer })
            } else {
                Ok((e, (-m) as i64))
            }
        } else {
            if m > 0x7fff_ffff_ffff_ffff {
                Err(ParseError::SyntaxError { position: d0 as usize, expected: Expected::Integer })
            } else {
                Ok((e, m as i64))
            }
        }
    }
}

/// The text literal at position `i`: a double quote, any characters other
/// than a double quote, and a closing double quote.  The value is the
/// text between the quotes.
pub open spec fn spec_string(s: Seq<char>, i: int) -> Result<(int, Seq<char>), ParseError> {
    if i < s.len() && s[i] == '"' {
        let k = quote_end(s, i + 1);
        if k >= s.len() {
            Err(ParseError::IncompleteInput { expected: Expected::Quote })
        } else {
            Ok((k + 1, s.subrange(i + 1, k)))
        }
    } else {
        Err(fail_at(s, i, Expected::Quote))
    }
}

/// The literal at position `i`: a text literal where the input holds a
/// double quote, an integer literal otherwise.
pub open spec fn spec_val(s: Seq<char>, i: int) -> Result<(int, ValueView), ParseError> {
    if i < s.len() && s[i] == '"' {
        match spec_string(s, i) {
            Ok((p, t)) => Ok((p, ValueView::String(t))),
            Err(e) => Err(e),
        }
    } else {
        match spec_integer(s, i) {
            Ok((p, n)) => Ok((p, ValueView::Integer(n as int))),
            Err(e) => Err(e),
        }
    }
}

/// The literals between `[` and `]`, starting at position `i` (just after
/// the opening bracket or after a previous element), appended to `acc`.
/// Elements are separated by whitespace, by one comma, or by both.
pub open spec fn spec_list_items(s: Seq<char>, i: int, acc: Seq<ValueView>) -> Result<
    (int, Seq<ValueView>),
    ParseError,
>
    decreases s.len() - i,
{
    let j = skip_ws(s, i);
    if j >= s.len() {
        Err(ParseError::IncompleteInput { expected: Expected::Bracket })
    } else if s[j] == ']' {
        Ok((j + 1, acc))
    } else {
        match spec_val(s, j) {
            Err(e) => Err(e),
            Ok((k, v)) => {
                let n = if skip_ws(s, k) < s.len() && s[skip_ws(s, k)] == ',' {
                    skip_ws(s, k) + 1
                } else {
                    skip_ws(s, k)
                };
                if i < n <= s.len() {
                    spec_list_items(s, n, acc.push(v))
                } else {
                    // a literal always advances the position, so this
                    // branch is never reached; it keeps the recursion
                    // visibly well-founded
                    Err(fail_at(s, n, Expected::Bracket))
                }
            },
        }
    }
}

/// The operand at position `i`: a bracketed list where the input holds
/// `[`, a single literal otherwise.
pub open spec fn spec_compare_value(s: Seq<char>, i: int) -> Result<
    (int, CompareValueView),
    ParseError,
> {
    if i >= s.len() {
        Err(ParseError::IncompleteInput { expected: Expected::Operand })
    } else if s[i] == '[' {
        match spec_list_items(s, i + 1, Seq::empty()) {
            Ok((p, vs)) => Ok((p, CompareValueView::Values(vs))),
            Err(e) => Err(e),
        }
    } else {
        match spec_val(s, i) {
            Ok((p, v)) => Ok((p, CompareValueView::Value(v))),
            Err(e) => Err(e),
        }
    }
}

/// A direct path selector at position `i`: the run of characters up to
/// the next whitespace, which must be non-empty.
pub open spec fn spec_direct_selector(s: Seq<char>, i: int) -> Result<
    (int, SelectorView),
    ParseError,
> {
    let e = path_end(s, i);
    if e == i {
        Err(fail_at(s, i, Expected::Selector))
    } else {
        Ok((e, SelectorView::Direct(s.subrange(i, e))))
    }
}

/// The selector at position `i`.  A well-formed transform application
/// (`function "(" path ")"`, with a non-empty path holding neither
/// whitespace nor `)`) wins; any other text is a direct path.
pub open spec fn spec_selector(s: Seq<char>, i: int) -> Result<(int, SelectorView), ParseError> {
    match spec_function(s, i) {
        Ok((j, f)) => {
            let k = fn_path_end(s, j + 1);
            if j < s.len() && s[j] == '(' && k > j + 1 && k < s.len() && s[k] == ')' {
                Ok((k + 1, SelectorView::Function(f, s.subrange(j + 1, k))))
            } else {
                spec_direct_selector(s, i)
            }
        },
        Err(_) => spec_direct_selector(s, i),
    }
}

/// The clause at position `i`: optional negation, a selector, a
/// comparison operator and an operand, separated by whitespace.  The
/// word `not` counts as negation only when whitespace follows it;
/// otherwise it begins a path.
pub open spec fn spec_filter(s: Seq<char>, i: int) -> Result<(int, FilterView), ParseError> {
    let negated = is_match_at(s, tok_not(), i) && i + 3 < s.len() && is_ws_char(s[i + 3]);
    let i1 = if negated {
        skip_ws(s, i + 3)
    } else {
        i
    };
    match spec_selector(s, i1) {
        Err(e) => Err(e),
        Ok((i2, sel)) => {
            if i2 >= s.len() {
                Err(ParseError::IncompleteInput { expected: Expected::CompareOp })
            } else if !is_ws_char(s[i2]) {
                Err(ParseError::SyntaxError { position: i2 as usize, expected: Expected::Whitespace })
            } else {
                let i3 = skip_ws(s, i2);
                match spec_compare_op(s, i3) {
                    Err(e) => Err(e),
                    Ok((i4, op)) => {
                        if i4 >= s.len() {
                            Err(ParseError::IncompleteInput { expected: Expected::Operand })
                        } else if !is_ws_char(s[i4]) {
                            Err(ParseError::SyntaxError {
                                position: i4 as usize,
                                expected: Expected::Whitespace,
                            })
                        } else {
                            let i5 = skip_ws(s, i4);
                            match spec_compare_value(s, i5) {
                                Err(e) => Err(e),
                                Ok((i6, cv)) => Ok(
                                    (
                                        i6,
                                        FilterView {
                                            unary: if negated {
                                                Some(Unary::Not)
                                            } else {
                                                None
                                            },
                                            selector: sel,
                                            compare_operator: op,
                                            compare_value: cv,
                                        },
                                    ),
                                ),
                            }
                        }
                    },
                }
            }
        },
    }
}

/// The chain behind the first clause: whitespace, a combinator,
/// whitespace and a clause, repeated until the input ends (trailing
/// whitespace is allowed).  Parsed pairs are appended to `acc`.
pub open spec fn spec_query_rest(s: Seq<char>, i: int, acc: Seq<(Operator, FilterView)>) -> Result<
    (int, Seq<(Operator, FilterView)>),
    ParseError,
>
    decreases s.len() - i,
{
    let j = skip_ws(s, i);
    if j >= s.len() {
        Ok((j, acc))
    } else if j == i {
        Err(ParseError::SyntaxError { position: i as usize, expected: Expected::Whitespace })
    } else {
        match spec_operator(s, j) {
            Err(e) => Err(e),
            Ok((k, op)) => {
                if k >= s.len() {
                    Err(ParseError::IncompleteInput { expected: Expected::Selector })
                } else if !is_ws_char(s[k]) {
                    Err(ParseError::SyntaxError {
                        position: k as usize,
                        expected: Expected::Whitespace,
                    })
                } else {
                    match spec_filter(s, skip_ws(s, k)) {
                        Err(e) => Err(e),
                        Ok((p, c)) => {
                            if i < p <= s.len() {
                                spec_query_rest(s, p, acc.push((op, c)))
                            } else {
                                // a clause always advances the position,
                                // so this branch is never reached; it
                                // keeps the recursion visibly well-founded
                                Err(fail_at(s, p, Expected::Combinator))
                            }
                        },
                    }
                }
            },
        }
    }
}

/// A whole query: one clause, then the combinator chain, consuming all of
/// the input.  Leading and trailing whitespace is allowed.
pub open spec fn spec_parse_query(s: Seq<char>) -> Result<QueryView, ParseError> {
    match spec_filter(s, skip_ws(s, 0)) {
        Err(e) => Err(e),
        Ok((i1, first)) => match spec_query_rest(s, i1, Seq::empty()) {
            Err(e) => Err(e),
            Ok((_p, rest)) => Ok(QueryView { filter: first, next_filters: rest }),
        },
    }
}

/// Whether `c` is one of the grammar's whitespace characters.
fn is_ws(c: char) -> (r: bool)
    ensures
        r == is_ws_char(c),
{
    c == ' ' || c == '\t' || c == '\n' || c == '\r' || c == '\u{c}'
}

/// Whether `c` is a decimal digit.
fn is_digit(c: char) -> (r: bool)
    ensures
        r == is_digit_char(c),
{
    let u = c as u32;
    48 <= u && u <= 57
}

/// The parse error for a failure at `pos`.
fn fail_err(input: &Vec<char>, pos: usize, exp: Expected) -> (e: ParseError)
    ensures
        e == fail_at(input@, pos as int, exp),
{
    if pos >= input.len() {
        ParseError::IncompleteInput { expected: exp }
    } else {
        ParseError::SyntaxError { position: pos, expected: exp }
    }
}

/// Skips whitespace, starting at `pos`.
fn skip_ws_at(input: &Vec<char>, pos: usize) -> (r: usize)
    requires
        pos <= input@.len(),
    ensures
        r == skip_ws(input@, pos as int),
        pos <= r <= input@.len(),
{
    let n = input.len();
    let mut i: usize = pos;
    while i < n && is_ws(input[i])
        invariant
            pos <= i <= n,
            skip_ws(input@, pos as int) == skip_ws(input@, i as int),
        decreases n - i,
    {
        i = i + 1;
    }
    i
}

/// Parses the unary negation token at `pos`.
pub fn unary_at(input: &Vec<char>, pos: usize) -> (r: Result<(usize, Unary), ParseError>)
    requires
        pos <= input@.len(),
    ensures
        match r {
            Ok((p, u)) => spec_unary(input@, pos as int) == Ok::<_, ParseError>((p as int, u))
                && pos < p <= input@.len(),
            Err(e) => spec_unary(input@, pos as int) == Err::<(int, Unary), _>(e),
        },
{
    // bind the length so that its bound as a machine word is in scope
    let n = input.len();
    let t = vec!['n', 'o', 't'];
    proof {
        assert(t@ =~= tok_not());
    }
    if crate::text::prefix_match(input, &t, pos) {
        Ok((pos + 3, Unary::Not))
    } else {
        Err(fail_err(input, pos, Expected::Unary))
    }
}

/// Parses the comparison operator at `pos`.
pub fn compare_op_at(input: &Vec<char>, pos: usize) -> (r: Result<(usize, CompareOp), ParseError>)
    requires
        pos <= input@.len(),
    ensures
        match r {
            Ok((p, op)) => spec_compare_op(input@, pos as int) == Ok::<_, ParseError>(
                (p as int, op),
            ) && pos < p <= input@.len(),
            Err(e) => spec_compare_op(input@, pos as int) == Err::<(int, CompareOp), _>(e),
        },
{
    // bind the length so that its bound as a machine word is in scope
    let n = input.len();
    let t = vec!['i', 's'];
    proof {
        assert(t@ =~= tok_is());
    }
    if crate::text::prefix_match(input, &t, pos) {
        return Ok((pos + 2, CompareOp::OpIs));
    }
    let t = vec!['i', 'n'];
    proof {
        assert(t@ =~= tok_in());
    }
    if crate::text::prefix_match(input, &t, pos) {
        return Ok((pos + 2, CompareOp::OpIn));
    }
    let t = vec!['=', '=', '/', 'e', 'q'];
    proof {
        assert(t@ =~= tok_eq());
    }
    if crate::text::prefix_match(input, &t, pos) {
        return Ok((pos + 5, CompareOp::OpEq));
    }
    let t = vec!['!', '=', '/', 'n', 'e', 'q'];
    proof {
        assert(t@ =~= tok_neq());
    }
    if crate::text::prefix_match(input, &t, pos) {
        return Ok((pos + 6, CompareOp::OpNeq));
    }
    let t = vec!['>', '='];
    proof {
        assert(t@ =~= tok_gte());
    }
    if crate::text::prefix_match(input, &t, pos) {
        return Ok((pos + 2, CompareOp::OpGte));
    }
    let t = vec!['<', '='];
    proof {
        assert(t@ =~= tok_lte());
    }
    if crate::text::prefix_match(input, &t, pos) {
        return Ok((pos + 2, CompareOp::OpLte));
    }
    let t = vec!['<'];
    proof {
        assert(t@ =~= tok_lt());
    }
    if crate::text::prefix_match(input, &t, pos) {
        return Ok((pos + 1, CompareOp::OpLt));
    }
    let t = vec!['>'];
    proof {
        assert(t@ =~= tok_gt());
    }
    if crate::text::prefix_match(input, &t, pos) {
        return Ok((pos + 1, CompareOp::OpGt));
    }
    Err(fail_err(input, pos, Expected::CompareOp))
}

/// Parses the boolean combinator at `pos`.
pub fn operator_at(input: &Vec<char>, pos: usize) -> (r: Result<(usize, Operator), ParseError>)
    requires
        pos <= input@.len(),
    ensures
        match r {
            Ok((p, op)) => spec_operator(input@, pos as int) == Ok::<_, ParseError>((p as int, op))
                && pos < p <= input@.len(),
            Err(e) => spec_operator(input@, pos as int) == Err::<(int, Operator), _>(e),
        },
{
    // bind the length so that its bound as a machine word is in scope
    let n = input.len();
    let t = vec!['o', 'r'];
    proof {
        assert(t@ =~= tok_or());
    }
    if crate::text::prefix_match(input, &t, pos) {
        return Ok((pos + 2, Operator::Or));
    }
    let t = vec!['a', 'n', 'd'];
    proof {
        assert(t@ =~= tok_and());
    }
    if crate::text::prefix_match(input, &t, pos) {
        return Ok((pos + 3, Operator::And));
    }
    let t = vec!['x', 'o', 'r'];
    proof {
        assert(t@ =~= tok_xor());
    }
    if crate::text::prefix_match(input, &t, pos) {
        return Ok((pos + 3, Operator::Xor));
    }
    Err(fail_err(input, pos, Expected::Combinator))
}

/// Parses the transform function name at `pos`.
pub fn function_at(input: &Vec<char>, pos: usize) -> (r: Result<(usize, Function), ParseError>)
    requires
        pos <= input@.len(),
    ensures
        match r {
            Ok((p, f)) => spec_function(input@, pos as int) == Ok::<_, ParseError>((p as int, f))
                && pos < p <= input@.len(),
            Err(e) => spec_function(input@, pos as int) == Err::<(int, Function), _>(e),
        },
{
    // bind the length so that its bound as a machine word is in scope
    let n = input.len();
    let t = vec!['l', 'e', 'n', 'g', 't', 'h'];
    proof {
        assert(t@ =~= tok_length());
    }
    if crate::text::prefix_match(input, &t, pos) {
        return Ok((pos + 6, Function::Length));
    }
    let t = vec!['k', 'e', 'y', 's'];
    proof {
        assert(t@ =~= tok_keys());
    }
    if crate::text::prefix_match(input, &t, pos) {
        return Ok((pos + 4, Function::Keys));
    }
    let t = vec!['v', 'a', 'l', 'u', 'e', 's'];
    proof {
        assert(t@ =~= tok_values());
    }
    if crate::text::prefix_match(input, &t, pos) {
        return Ok((pos + 6, Function::Values));
    }
    Err(fail_err(input, pos, Expected::Function))
}


/// The digits run found by `digits_end` lies within the input and holds
/// only digits.
proof fn lemma_digits_end(s: Seq<char>, i: int)
    ensures
        i <= digits_end(s, i),
        i <= s.len() ==> digits_end(s, i) <= s.len(),
        forall|k: int| i <= k < digits_end(s, i) ==> is_digit_char(s[k]),
    decreases s.len() - i,
{
    if i < s.len() && is_digit_char(s[i]) {
        lemma_digits_end(s, i + 1);
    }
}

/// Appending digits to a non-negative accumulator never shrinks it.
proof fn lemma_digits_value_ge(s: Seq<char>, i: int, j: int, acc: int)
    requires
        i <= j,
        acc >= 0,
        forall|k: int| i <= k < j ==> is_digit_char(s[k]),
    ensures
        digits_value(s, i, j, acc) >= acc,
    decreases j - i,
{
    if i < j {
        assert(is_digit_char(s[i]));
        lemma_digits_value_ge(s, i + 1, j, acc * 10 + digit_val(s[i]));
    }
}

/// Parses the signed 64-bit integer literal at `pos`.
pub fn integer_at(input: &Vec<char>, pos: usize) -> (r: Result<(usize, i64), ParseError>)
    requires
        pos <= input@.len(),
    ensures
        match r {
            Ok((p, v)) => spec_integer(input@, pos as int) == Ok::<_, ParseError>((p as int, v))
                && pos < p <= input@.len(),
            Err(e) => spec_integer(input@, pos as int) == Err::<(int, i64), _>(e),
        },
{
    let n = input.len();
    let ghost s = input@;
    let mut negative = false;
    let mut signed = false;
    if pos < n {
        let c = input[pos];
        negative = c == '-';
        signed = c == '+' || c == '-';
    }
    let d0: usize = if signed {
        pos + 1
    } else {
        pos
    };
    if d0 > n {
        // a lone sign at the end of the input
        return Err(fail_err(input, d0, Expected::Digit));
    }
    let ghost e = digits_end(s, d0 as int);
    proof {
        lemma_digits_end(s, d0 as int);
    }
    let mut i: usize = d0;
    let mut acc: u64 = 0;
    while i < n && is_digit(input[i])
        invariant
            d0 <= i <= n,
            e == digits_end(s, i as int),
            acc <= 0x8000_0000_0000_0000u64,
            digits_value(s, d0 as int, e, 0) == digits_value(s, i as int, e, acc as int),
        decreases n - i,
    {
        let c = input[i];
        let d: u64 = (c as u32) as u64 - 48;
        proof {
            lemma_digits_end(s, i + 1);
        }
        let wide: u128 = (acc as u128) * 10 + (d as u128);
        if wide > 0x8000_0000_0000_0000u128 {
            // the value of the digits seen so far already exceeds what a
            // signed 64-bit integer can carry; the whole run can only be
            // larger
            proof {
                lemma_digits_value_ge(s, i + 1, e, acc as int * 10 + digit_val(s[i as int]));
            }
            return Err(ParseError::SyntaxError { position: d0, expected: Expected::Integer });
        }
        acc = wide as u64;
        i = i + 1;
    }
    if i == d0 {
        return Err(fail_err(input, d0, Expected::Digit));
    }
    if negative {
        let v: i64 = if acc == 0x8000_0000_0000_0000u64 {
            i64::MIN
        } else {
            -(acc as i64)
        };
        Ok((i, v))
    } else {
        if acc > 0x7fff_ffff_ffff_ffffu64 {
            Err(ParseError::SyntaxError { position: d0, expected: Expected::Integer })
        } else {
            Ok((i, acc as i64))
        }
    }
}

/// Parses the text literal at `pos`.
pub fn string_at(input: &Vec<char>, pos: usize) -> (r: Result<(usize, Vec<char>), ParseError>)
    requires
        pos <= input@.len(),
    ensures
        match r {
            Ok((p, t)) => spec_string(input@, pos as int) == Ok::<_, ParseError>((p as int, t@))
                && pos < p <= input@.len(),
            Err(e) => spec_string(input@, pos as int) == Err::<(int, Seq<char>), _>(e),
        },
{
    let n = input.len();
    let ghost s = input@;
    if pos < n && input[pos] == '"' {
        let mut i: usize = pos + 1;
        let mut t: Vec<char> = Vec::new();
        while i < n && input[i] != '"'
            invariant
                pos + 1 <= i <= n,
                quote_end(s, pos + 1) == quote_end(s, i as int),
                t@ == s.subrange(pos + 1, i as int),
            decreases n - i,
        {
            t.push(input[i]);
            proof {
                assert(s.subrange(pos + 1, i + 1) =~= s.subrange(pos + 1, i as int).push(
                    s[i as int],
                ));
            }
            i = i + 1;
        }
        if i >= n {
            Err(ParseError::IncompleteInput { expected: Expected::Quote })
        } else {
            Ok((i + 1, t))
        }
    } else {
        Err(fail_err(input, pos, Expected::Quote))
    }
}

/// Parses the literal at `pos`: text behind a double quote, an integer
/// otherwise.
pub fn val_at(input: &Vec<char>, pos: usize) -> (r: Result<(usize, Value), ParseError>)
    requires
        pos <= input@.len(),
    ensures
        match r {
            Ok((p, v)) => spec_val(input@, pos as int) == Ok::<_, ParseError>((p as int, v@))
                && pos < p <= input@.len(),
            Err(e) => spec_val(input@, pos as int) == Err::<(int, ValueView), _>(e),
        },
{
    let n = input.len();
    if pos < n && input[pos] == '"' {
        match string_at(input, pos) {
            Ok((p, t)) => Ok((p, Value::String(t))),
            Err(e) => Err(e),
        }
    } else {
        match integer_at(input, pos) {
            Ok((p, v)) => Ok((p, Value::Integer(v))),
            Err(e) => Err(e),
        }
    }
}


/// Parses the literals between `[` and `]`, starting just after the
/// opening bracket.
pub fn list_at(input: &Vec<char>, pos: usize) -> (r: Result<(usize, Vec<Value>), ParseError>)
    requires
        pos <= input@.len(),
    ensures
        match r {
            Ok((p, vs)) => spec_list_items(input@, pos as int, Seq::empty()) == Ok::<
                _,
                ParseError,
            >((p as int, values_view(vs))) && pos <= p <= input@.len(),
            Err(e) => spec_list_items(input@, pos as int, Seq::empty()) == Err::<
                (int, Seq<ValueView>),
                _,
            >(e),
        },
{
    let n = input.len();
    let ghost s = input@;
    let ghost target = spec_list_items(s, pos as int, Seq::empty());
    let mut i: usize = pos;
    let mut vs: Vec<Value> = Vec::new();
    proof {
        assert(values_view(vs) =~= Seq::<ValueView>::empty());
    }
    loop
        invariant
            pos <= i <= n,
            target == spec_list_items(s, i as int, values_view(vs)),
        decreases n - i,
    {
        let j = skip_ws_at(input, i);
        if j >= n {
            return Err(ParseError::IncompleteInput { expected: Expected::Bracket });
        }
        if input[j] == ']' {
            return Ok((j + 1, vs));
        }
        match val_at(input, j) {
            Err(e) => {
                return Err(e);
            },
            Ok((k, v)) => {
                let m = skip_ws_at(input, k);
                let ni: usize = if m < n && input[m] == ',' {
                    m + 1
                } else {
                    m
                };
                let ghost prev = values_view(vs);
                let ghost vv = v@;
                vs.push(v);
                proof {
                    assert(values_view(vs) =~= prev.push(vv));
                }
                i = ni;
            },
        }
    }
}

/// Parses the operand at `pos`: a bracketed list behind `[`, a single
/// literal otherwise.
pub fn compare_value_at(input: &Vec<char>, pos: usize) -> (r: Result<
    (usize, CompareValue),
    ParseError,
>)
    requires
        pos <= input@.len(),
    ensures
        match r {
            Ok((p, cv)) => spec_compare_value(input@, pos as int) == Ok::<_, ParseError>(
                (p as int, cv@),
            ) && pos < p <= input@.len(),
            Err(e) => spec_compare_value(input@, pos as int) == Err::<
                (int, CompareValueView),
                _,
            >(e),
        },
{
    let n = input.len();
    if pos >= n {
        return Err(ParseError::IncompleteInput { expected: Expected::Operand });
    }
    if input[pos] == '[' {
        match list_at(input, pos + 1) {
            Ok((p, elems)) => Ok((p, CompareValue::Values(elems))),
            Err(e) => Err(e),
        }
    } else {
        match val_at(input, pos) {
            Ok((p, v)) => Ok((p, CompareValue::Value(v))),
            Err(e) => Err(e),
        }
    }
}

/// Lexes a path at `pos`: the run of characters up to the next
/// whitespace, which must be non-empty.
fn path_at(input: &Vec<char>, pos: usize) -> (r: Result<(usize, Vec<char>), ParseError>)
    requires
        pos <= input@.len(),
    ensures
        match r {
            Ok((p, path)) => spec_direct_selector(input@, pos as int) == Ok::<_, ParseError>(
                (p as int, SelectorView::Direct(path@)),
            ) && pos < p <= input@.len(),
            Err(e) => spec_direct_selector(input@, pos as int) == Err::<
                (int, SelectorView),
                _,
            >(e),
        },
{
    let n = input.len();
    let ghost s = input@;
    let mut i: usize = pos;
    let mut path: Vec<char> = Vec::new();
    while i < n && !is_ws(input[i])
        invariant
            pos <= i <= n,
            path_end(s, pos as int) == path_end(s, i as int),
            path@ == s.subrange(pos as int, i as int),
        decreases n - i,
    {
        path.push(input[i]);
        proof {
            assert(s.subrange(pos as int, i + 1) =~= s.subrange(pos as int, i as int).push(
                s[i as int],
            ));
        }
        i = i + 1;
    }
    if i == pos {
        Err(fail_err(input, pos, Expected::Selector))
    } else {
        Ok((i, path))
    }
}

/// Parses a direct path selector at `pos`.
fn direct_selector_at(input: &Vec<char>, pos: usize) -> (r: Result<(usize, Selector), ParseError>)
    requires
        pos <= input@.len(),
    ensures
        match r {
            Ok((p, sel)) => spec_direct_selector(input@, pos as int) == Ok::<_, ParseError>(
                (p as int, sel@),
            ) && pos < p <= input@.len(),
            Err(e) => spec_direct_selector(input@, pos as int) == Err::<
                (int, SelectorView),
                _,
            >(e),
        },
{
    match path_at(input, pos) {
        Ok((p, path)) => Ok((p, Selector::Direct(path))),
        Err(e) => Err(e),
    }
}

/// Parses the selector at `pos`: a well-formed transform application
/// wins, any other text is lexed as a direct path.
pub fn selector_at(input: &Vec<char>, pos: usize) -> (r: Result<(usize, Selector), ParseError>)
    requires
        pos <= input@.len(),
    ensures
        match r {
            Ok((p, sel)) => spec_selector(input@, pos as int) == Ok::<_, ParseError>(
                (p as int, sel@),
            ) && pos < p <= input@.len(),
            Err(e) => spec_selector(input@, pos as int) == Err::<(int, SelectorView), _>(e),
        },
{
    let n = input.len();
    let ghost s = input@;
    match function_at(input, pos) {
        Ok((j, f)) => {
            if j < n && input[j] == '(' {
                let mut i: usize = j + 1;
                let mut path: Vec<char> = Vec::new();
                while i < n && input[i] != ')' && !is_ws(input[i])
                    invariant
                        j + 1 <= i <= n,
                        fn_path_end(s, j + 1) == fn_path_end(s, i as int),
                        path@ == s.subrange(j + 1, i as int),
                    decreases n - i,
                {
                    path.push(input[i]);
                    proof {
                        assert(s.subrange(j + 1, i + 1) =~= s.subrange(j + 1, i as int).push(
                            s[i as int],
                        ));
                    }
                    i = i + 1;
                }
                if i > j + 1 && i < n && input[i] == ')' {
                    Ok((i + 1, Selector::Function(f, path)))
                } else {
                    direct_selector_at(input, pos)
                }
            } else {
                direct_selector_at(input, pos)
            }
        },
        Err(_) => direct_selector_at(input, pos),
    }
}

/// Parses the clause at `pos`: optional negation, a selector, a
/// comparison operator and an operand, separated by whitespace.
pub fn filter_at(input: &Vec<char>, pos: usize) -> (r: Result<(usize, Filter), ParseError>)
    requires
        pos <= input@.len(),
    ensures
        match r {
            Ok((p, f)) => spec_filter(input@, pos as int) == Ok::<_, ParseError>((p as int, f@))
                && pos < p <= input@.len(),
            Err(e) => spec_filter(input@, pos as int) == Err::<(int, FilterView), _>(e),
        },
{
    let n = input.len();
    let t = vec!['n', 'o', 't'];
    proof {
        assert(t@ =~= tok_not());
    }
    let negated = crate::text::prefix_match(input, &t, pos) && pos + 3 < n && is_ws(input[pos + 3]);
    let i1: usize = if negated {
        skip_ws_at(input, pos + 3)
    } else {
        pos
    };
    match selector_at(input, i1) {
        Err(e) => Err(e),
        Ok((i2, sel)) => {
            if i2 >= n {
                return Err(ParseError::IncompleteInput { expected: Expected::CompareOp });
            }
            if !is_ws(input[i2]) {
                return Err(
                    ParseError::SyntaxError { position: i2, expected: Expected::Whitespace },
                );
            }
            let i3 = skip_ws_at(input, i2);
            match compare_op_at(input, i3) {
                Err(e) => Err(e),
                Ok((i4, op)) => {
                    if i4 >= n {
                        return Err(ParseError::IncompleteInput { expected: Expected::Operand });
                    }
                    if !is_ws(input[i4]) {
                        return Err(
                            ParseError::SyntaxError {
                                position: i4,
                                expected: Expected::Whitespace,
                            },
                        );
                    }
                    let i5 = skip_ws_at(input, i4);
                    match compare_value_at(input, i5) {
                        Err(e) => Err(e),
                        Ok((i6, cv)) => Ok(
                            (
                                i6,
                                Filter {
                                    unary: if negated {
                                        Some(Unary::Not)
                                    } else {
                                        None
                                    },
                                    selector: sel,
                                    compare_operator: op,
                                    compare_value: cv,
                                },
                            ),
                        ),
                    }
                },
            }
        },
    }
}


/// Parses a whole query from a character sequence.
fn parse_chars(input: &Vec<char>) -> (r: Result<Query, ParseError>)
    ensures
        match r {
            Ok(q) => spec_parse_query(input@) == Ok::<_, ParseError>(q@),
            Err(e) => spec_parse_query(input@) == Err::<QueryView, _>(e),
        },
{
    let n = input.len();
    let ghost s = input@;
    let i0 = skip_ws_at(input, 0);
    match filter_at(input, i0) {
        Err(e) => Err(e),
        Ok((i1, first)) => {
            let ghost target = spec_query_rest(s, i1 as int, Seq::empty());
            let mut pos: usize = i1;
            let mut rest: Vec<(Operator, Filter)> = Vec::new();
            proof {
                assert(pairs_view(rest) =~= Seq::<(Operator, FilterView)>::empty());
            }
            loop
                invariant
                    i1 <= pos <= n,
                    target == spec_query_rest(s, pos as int, pairs_view(rest)),
                decreases n - pos,
            {
                let j = skip_ws_at(input, pos);
                if j >= n {
                    return Ok(Query { filter: first, next_filters: rest });
                }
                if j == pos {
                    return Err(
                        ParseError::SyntaxError { position: pos, expected: Expected::Whitespace },
                    );
                }
                match operator_at(input, j) {
                    Err(e) => {
                        return Err(e);
                    },
                    Ok((k, op)) => {
                        if k >= n {
                            return Err(
                                ParseError::IncompleteInput { expected: Expected::Selector },
                            );
                        }
                        if !is_ws(input[k]) {
                            return Err(
                                ParseError::SyntaxError {
                                    position: k,
                                    expected: Expected::Whitespace,
                                },
                            );
                        }
                        let m = skip_ws_at(input, k);
                        match filter_at(input, m) {
                            Err(e) => {
                                return Err(e);
                            },
                            Ok((p, f)) => {
                                let ghost prev = pairs_view(rest);
                                let ghost fv = f@;
                                rest.push((op, f));
                                proof {
                                    assert(pairs_view(rest) =~= prev.push((op, fv)));
                                }
                                pos = p;
                            },
                        }
                    },
                }
            }
        },
    }
}

/// Parses a query string into a `Query`, or says why it cannot be one.
pub fn parse(s: &str) -> (r: Result<Query, ParseError>)
    ensures
        match r {
            Ok(q) => spec_parse_query(s@) == Ok::<_, ParseError>(q@),
            Err(e) => spec_parse_query(s@) == Err::<QueryView, _>(e),
        },
{
    let chars = crate::text::str_to_chars(s);
    parse_chars(&chars)
}

/// Parses the unary negation token at the start of `s`.
pub fn unary_operator(s: &str) -> (r: Result<(usize, Unary), ParseError>)
    ensures
        match r {
            Ok((p, u)) => spec_unary(s@, 0) == Ok::<_, ParseError>((p as int, u)),
            Err(e) => spec_unary(s@, 0) == Err::<(int, Unary), _>(e),
        },
{
    let chars = crate::text::str_to_chars(s);
    unary_at(&chars, 0)
}

/// Parses the comparison operator at the start of `s`.
pub fn compare_op(s: &str) -> (r: Result<(usize, CompareOp), ParseError>)
    ensures
        match r {
            Ok((p, op)) => spec_compare_op(s@, 0) == Ok::<_, ParseError>((p as int, op)),
            Err(e) => spec_compare_op(s@, 0) == Err::<(int, CompareOp), _>(e),
        },
{
    let chars = crate::text::str_to_chars(s);
    compare_op_at(&chars, 0)
}

/// Parses the boolean combinator at the start of `s`.
pub fn operator(s: &str) -> (r: Result<(usize, Operator), ParseError>)
    ensures
        match r {
            Ok((p, op)) => spec_operator(s@, 0) == Ok::<_, ParseError>((p as int, op)),
            Err(e) => spec_operator(s@, 0) == Err::<(int, Operator), _>(e),
        },
{
    let chars = crate::text::str_to_chars(s);
    operator_at(&chars, 0)
}

/// Parses the transform function name at the start of `s`.
pub fn function(s: &str) -> (r: Result<(usize, Function), ParseError>)
    ensures
        match r {
            Ok((p, f)) => spec_function(s@, 0) == Ok::<_, ParseError>((p as int, f)),
            Err(e) => spec_function(s@, 0) == Err::<(int, Function), _>(e),
        },
{
    let chars = crate::text::str_to_chars(s);
    function_at(&chars, 0)
}

/// Parses the signed 64-bit integer literal at the start of `s`.
pub fn integer(s: &str) -> (r: Result<(usize, i64), ParseError>)
    ensures
        match r {
            Ok((p, v)) => spec_integer(s@, 0) == Ok::<_, ParseError>((p as int, v)),
            Err(e) => spec_integer(s@, 0) == Err::<(int, i64), _>(e),
        },
{
    let chars = crate::text::str_to_chars(s);
    integer_at(&chars, 0)
}

/// Parses the text literal at the start of `s`.
pub fn string(s: &str) -> (r: Result<(usize, Vec<char>), ParseError>)
    ensures
        match r {
            Ok((p, t)) => spec_string(s@, 0) == Ok::<_, ParseError>((p as int, t@)),
            Err(e) => spec_string(s@, 0) == Err::<(int, Seq<char>), _>(e),
        },
{
    let chars = crate::text::str_to_chars(s);
    string_at(&chars, 0)
}

/// Parses the literal at the start of `s`.
pub fn val(s: &str) -> (r: Result<(usize, Value), ParseError>)
    ensures
        match r {
            Ok((p, v)) => spec_val(s@, 0) == Ok::<_, ParseError>((p as int, v@)),
            Err(e) => spec_val(s@, 0) == Err::<(int, ValueView), _>(e),
        },
{
    let chars = crate::text::str_to_chars(s);
    val_at(&chars, 0)
}

/// Parses the bracketed list of literals at the start of `s`.
pub fn list_of_val(s: &str) -> (r: Result<(usize, Vec<Value>), ParseError>)
    ensures
        match r {
            Ok((p, vs)) => s@.len() > 0 && s@[0] == '[' && spec_list_items(s@, 1, Seq::empty())
                == Ok::<_, ParseError>((p as int, values_view(vs))),
            Err(e) => {
                if s@.len() > 0 && s@[0] == '[' {
                    spec_list_items(s@, 1, Seq::empty()) == Err::<(int, Seq<ValueView>), _>(e)
                } else {
                    e == fail_at(s@, 0, Expected::Bracket)
                }
            },
        },
{
    let chars = crate::text::str_to_chars(s);
    if chars.len() > 0 {
        let c = chars[0];
        if c == '[' {
            return list_at(&chars, 1);
        }
    }
    Err(fail_err(&chars, 0, Expected::Bracket))
}

/// Lexes the selector path at the start of `s`: the run of characters up
/// to the first whitespace.
pub fn selector_str(s: &str) -> (r: Result<(usize, Vec<char>), ParseError>)
    ensures
        match r {
            Ok((p, path)) => spec_direct_selector(s@, 0) == Ok::<_, ParseError>(
                (p as int, SelectorView::Direct(path@)),
            ),
            Err(e) => spec_direct_selector(s@, 0) == Err::<(int, SelectorView), _>(e),
        },
{
    let chars = crate::text::str_to_chars(s);
    path_at(&chars, 0)
}

/// Parses the selector at the start of `s`.
pub fn selector(s: &str) -> (r: Result<(usize, Selector), ParseError>)
    ensures
        match r {
            Ok((p, sel)) => spec_selector(s@, 0) == Ok::<_, ParseError>((p as int, sel@)),
            Err(e) => spec_selector(s@, 0) == Err::<(int, SelectorView), _>(e),
        },
{
    let chars = crate::text::str_to_chars(s);
    selector_at(&chars, 0)
}


/// The character of one decimal digit value.
pub open spec fn digit_char(d: int) -> char {
    if d == 0 {
        '0'
    } else if d == 1 {
        '1'
    } else if d == 2 {
        '2'
    } else if d == 3 {
        '3'
    } else if d == 4 {
        '4'
    } else if d == 5 {
        '5'
    } else if d == 6 {
        '6'
    } else if d == 7 {
        '7'
    } else if d == 8 {
        '8'
    } else {
        '9'
    }
}

/// The decimal digits of `m`, most significant first.
pub open spec fn spec_digits_of(m: nat) -> Seq<char>
    decreases m,
{
    if m < 10 {
        seq![digit_char(m as int)]
    } else {
        spec_digits_of(m / 10).push(digit_char((m % 10) as int))
    }
}

/// The textual literal of the integer `n`: its decimal digits, behind a
/// minus sign when it is negative.
pub open spec fn spec_render_int(n: int) -> Seq<char> {
    if n < 0 {
        seq!['-'] + spec_digits_of((-n) as nat)
    } else {
        spec_digits_of(n as nat)
    }
}

/// The digits of `m` are decimal digits, and there is at least one.
proof fn lemma_digits_of_digits(m: nat)
    ensures
        spec_digits_of(m).len() >= 1,
        forall|k: int| 0 <= k < spec_digits_of(m).len() ==> is_digit_char(#[trigger] spec_digits_of(
            m,
        )[k]),
    decreases m,
{
    if m < 10 {
    } else {
        lemma_digits_of_digits(m / 10);
    }
}

/// Appending one more digit multiplies the value of a digit run by ten
/// and adds the digit.
proof fn lemma_dv_push(s: Seq<char>, c: char, i: int, acc: int)
    requires
        0 <= i <= s.len(),
    ensures
        digits_value(s.push(c), i, s.len() + 1 as int, acc) == digits_value(s, i, s.len() as int, acc)
            * 10 + digit_val(c),
    decreases s.len() - i,
{
    let t = s.push(c);
    let j = s.len() + 1 as int;
    if i < s.len() {
        assert(t[i] == s[i]);
        lemma_dv_push(s, c, i + 1, acc * 10 + digit_val(s[i]));
        assert(digits_value(t, i, j, acc) == digits_value(t, i + 1, j, acc * 10 + digit_val(t[i])));
        assert(digits_value(s, i, s.len() as int, acc) == digits_value(
            s,
            i + 1,
            s.len() as int,
            acc * 10 + digit_val(s[i]),
        ));
    } else {
        assert(t[s.len() as int] == c);
        assert(digits_value(t, i, j, acc) == digits_value(t, i + 1, j, acc * 10 + digit_val(t[i])));
        assert(digits_value(s, i, s.len() as int, acc) == acc);
    }
}

/// The value of the digits of `m` is `m`.
proof fn lemma_dv_of_digits(m: nat)
    ensures
        digits_value(spec_digits_of(m), 0, spec_digits_of(m).len() as int, 0) == m,
    decreases m,
{
    if m < 10 {
        let c = digit_char(m as int);
        assert(digit_val(c) == m);
        assert(digits_value(seq![c], 0, 1, 0) == digits_value(seq![c], 1, 1, digit_val(c)));
    } else {
        lemma_dv_of_digits(m / 10);
        lemma_dv_push(spec_digits_of(m / 10), digit_char((m % 10) as int), 0, 0);
        assert(digit_val(digit_char((m % 10) as int)) == m % 10);
        assert(m == (m / 10) * 10 + m % 10);
    }
}

/// A run that is all digits ends exactly at the end of the input.
proof fn lemma_digits_end_all(s: Seq<char>, i: int)
    requires
        0 <= i <= s.len(),
        forall|k: int| i <= k < s.len() ==> is_digit_char(s[k]),
    ensures
        digits_end(s, i) == s.len(),
    decreases s.len() - i,
{
    if i < s.len() {
        lemma_digits_end_all(s, i + 1);
    }
}

/// The value of a digit run is unchanged by text standing before it.
proof fn lemma_dv_shift(u: Seq<char>, t: Seq<char>, k: int, acc: int)
    requires
        0 <= k <= t.len(),
    ensures
        digits_value(u + t, u.len() + k, (u + t).len() as int, acc) == digits_value(
            t,
            k,
            t.len() as int,
            acc,
        ),
    decreases t.len() - k,
{
    if k < t.len() {
        assert((u + t)[u.len() + k] == t[k]);
        lemma_dv_shift(u, t, k + 1, acc * 10 + digit_val(t[k]));
    }
}

/// Parsing the textual literal of any signed 64-bit integer `n` yields
/// the literal `Integer(n)`, and consumes the whole of it: the grammar
/// round-trips the signed 64-bit range.
pub proof fn lemma_integer_round_trip(n: i64)
    ensures
        spec_integer(spec_render_int(n as int), 0) == Ok::<(int, i64), ParseError>(
            (spec_render_int(n as int).len() as int, n),
        ),
        spec_val(spec_render_int(n as int), 0) == Ok::<(int, ValueView), ParseError>(
            (spec_render_int(n as int).len() as int, ValueView::Integer(n as int)),
        ),
{
    let s = spec_render_int(n as int);
    if n >= 0 {
        let t = spec_digits_of(n as nat);
        lemma_digits_of_digits(n as nat);
        lemma_dv_of_digits(n as nat);
        lemma_digits_end_all(t, 0);
        assert(is_digit_char(s[0]));
        assert(s[0] != '-' && s[0] != '+' && s[0] != '"');
    } else {
        let t = spec_digits_of((-(n as int)) as nat);
        lemma_digits_of_digits((-(n as int)) as nat);
        lemma_dv_of_digits((-(n as int)) as nat);
        assert(s == seq!['-'] + t);
        assert(s[0] == '-');
        assert(s.len() == 1 + t.len());
        assert forall|k: int| 1 <= k < s.len() implies is_digit_char(s[k]) by {
            assert(s[k] == t[k - 1]);
        }
        lemma_digits_end_all(s, 1);
        lemma_dv_shift(seq!['-'], t, 0, 0);
        assert(digits_value(s, 1, s.len() as int, 0) == -(n as int));
    }
}

/// A plus sign before the digits of a non-negative integer changes
/// nothing: parsing `+` followed by the digits of `n` also yields `n`.
pub proof fn lemma_plus_sign_round_trip(n: i64)
    requires
        n >= 0,
    ensures
        spec_integer(seq!['+'] + spec_digits_of(n as nat), 0) == Ok::<(int, i64), ParseError>(
            ((1 + spec_digits_of(n as nat).len()) as int, n),
        ),
{
    let t = spec_digits_of(n as nat);
    let s = seq!['+'] + t;
    lemma_digits_of_digits(n as nat);
    lemma_dv_of_digits(n as nat);
    assert(s[0] == '+');
    assert(s.len() == 1 + t.len());
    assert forall|k: int| 1 <= k < s.len() implies is_digit_char(s[k]) by {
        assert(s[k] == t[k - 1]);
    }
    lemma_digits_end_all(s, 1);
    lemma_dv_shift(seq!['+'], t, 0, 0);
}

/// A quote run ends at the first quote after it.
proof fn lemma_quote_end_all(s: Seq<char>, i: int, j: int)
    requires
        0 <= i <= j < s.len(),
        forall|k: int| i <= k < j ==> s[k] != '"',
        s[j] == '"',
    ensures
        quote_end(s, i) == j,
    decreases j - i,
{
    if i < j {
        lemma_quote_end_all(s, i + 1, j);
    }
}

/// Parsing a quoted text literal yields exactly the text between the
/// quotes, for any text without an embedded quote character, and
/// consumes the whole literal.
pub proof fn lemma_text_round_trip(t: Seq<char>)
    requires
        forall|i: int| 0 <= i < t.len() ==> t[i] != '"',
    ensures
        spec_val(seq!['"'] + t + seq!['"'], 0) == Ok::<(int, ValueView), ParseError>(
            (t.len() + 2 as int, ValueView::String(t)),
        ),
{
    let s = seq!['"'] + t + seq!['"'];
    assert(s[0] == '"');
    assert(s.len() == t.len() + 2);
    assert forall|k: int| 1 <= k < 1 + t.len() implies s[k] != '"' by {
        assert(s[k] == t[k - 1]);
    }
    assert(s[(1 + t.len()) as int] == '"');
    lemma_quote_end_all(s, 1, (1 + t.len()) as int);
    assert(s.subrange(1, (1 + t.len()) as int) =~= t);
}

} // verus!
