use header_filter_lang::ast::{CompareOp, CompareValue, Value};
use header_filter_lang::comparator::Comparator;
use header_filter_lang::header::{EvalError, HeaderValue};
use header_filter_lang::evaluator::evaluate;
use header_filter_lang::parse;

fn chars(s: &str) -> Vec<char> {
    s.chars().collect()
}

fn table(entries: Vec<(&str, HeaderValue)>) -> HeaderValue {
    HeaderValue::Table(entries.into_iter().map(|(k, v)| (chars(k), v)).collect())
}

fn eval(query: &str, header: &HeaderValue) -> Result<bool, EvalError> {
    parse(query).unwrap().filter(header)
}

#[test]
fn test_comparator_eq() {
    let five = CompareValue::Value(Value::Integer(5));
    assert_eq!(Comparator(&CompareOp::OpEq, &five).filter(&HeaderValue::Integer(5)), Ok(true));
    assert_eq!(Comparator(&CompareOp::OpEq, &five).filter(&HeaderValue::Integer(6)), Ok(false));
    assert_eq!(
        Comparator(&CompareOp::OpEq, &five).filter(&HeaderValue::Text(chars("5"))),
        Ok(false)
    );
    let foo = CompareValue::Value(Value::String(chars("foo")));
    assert_eq!(
        Comparator(&CompareOp::OpEq, &foo).filter(&HeaderValue::Text(chars("foo"))),
        Ok(true)
    );
    assert_eq!(
        Comparator(&CompareOp::OpEq, &foo).filter(&HeaderValue::Text(chars("fo"))),
        Ok(false)
    );
}

#[test]
fn test_comparator_is_checks_the_type() {
    let int_operand = CompareValue::Value(Value::Integer(1));
    let text_operand = CompareValue::Value(Value::String(chars("x")));
    assert_eq!(
        Comparator(&CompareOp::OpIs, &int_operand).filter(&HeaderValue::Integer(999)),
        Ok(true)
    );
    assert_eq!(
        Comparator(&CompareOp::OpIs, &int_operand).filter(&HeaderValue::Text(chars("999"))),
        Ok(false)
    );
    assert_eq!(
        Comparator(&CompareOp::OpIs, &text_operand).filter(&HeaderValue::Text(chars("999"))),
        Ok(true)
    );
    assert_eq!(
        Comparator(&CompareOp::OpIs, &text_operand).filter(&HeaderValue::Boolean(true)),
        Ok(false)
    );
}

#[test]
fn test_comparator_is_on_list_is_fatal() {
    let list = CompareValue::Values(vec![Value::Integer(1)]);
    assert_eq!(
        Comparator(&CompareOp::OpIs, &list).filter(&HeaderValue::Integer(1)),
        Err(EvalError::ComparatorTypeError)
    );
}

#[test]
fn test_comparator_in_text_operand_is_haystack() {
    let hello = CompareValue::Value(Value::String(chars("hello")));
    assert_eq!(
        Comparator(&CompareOp::OpIn, &hello).filter(&HeaderValue::Text(chars("ell"))),
        Ok(true)
    );
    assert_eq!(
        Comparator(&CompareOp::OpIn, &hello).filter(&HeaderValue::Text(chars("hello world"))),
        Ok(false)
    );
}

#[test]
fn test_comparator_in_list_is_exact_membership() {
    let list = CompareValue::Values(vec![
        Value::Integer(1),
        Value::Integer(2),
        Value::String(chars("ell")),
    ]);
    assert_eq!(Comparator(&CompareOp::OpIn, &list).filter(&HeaderValue::Integer(2)), Ok(true));
    assert_eq!(Comparator(&CompareOp::OpIn, &list).filter(&HeaderValue::Integer(3)), Ok(false));
    assert_eq!(
        Comparator(&CompareOp::OpIn, &list).filter(&HeaderValue::Text(chars("ell"))),
        Ok(true)
    );
    // list membership for text is exact equality, not substring
    assert_eq!(
        Comparator(&CompareOp::OpIn, &list).filter(&HeaderValue::Text(chars("el"))),
        Ok(false)
    );
}

#[test]
fn test_comparator_orderings() {
    let five = CompareValue::Value(Value::Integer(5));
    // the operand is the left-hand side: "5 >= value"
    assert_eq!(Comparator(&CompareOp::OpGte, &five).filter(&HeaderValue::Integer(5)), Ok(true));
    assert_eq!(Comparator(&CompareOp::OpGte, &five).filter(&HeaderValue::Integer(6)), Ok(false));
    assert_eq!(Comparator(&CompareOp::OpLte, &five).filter(&HeaderValue::Integer(5)), Ok(true));
    assert_eq!(Comparator(&CompareOp::OpLt, &five).filter(&HeaderValue::Integer(6)), Ok(true));
    assert_eq!(Comparator(&CompareOp::OpLt, &five).filter(&HeaderValue::Integer(5)), Ok(false));
    assert_eq!(Comparator(&CompareOp::OpGt, &five).filter(&HeaderValue::Integer(4)), Ok(true));
    assert_eq!(Comparator(&CompareOp::OpNeq, &five).filter(&HeaderValue::Integer(4)), Ok(true));
    assert_eq!(Comparator(&CompareOp::OpNeq, &five).filter(&HeaderValue::Integer(5)), Ok(false));
    let list = CompareValue::Values(vec![Value::Integer(1)]);
    assert_eq!(
        Comparator(&CompareOp::OpGt, &list).filter(&HeaderValue::Integer(1)),
        Err(EvalError::ComparatorTypeError)
    );
}

#[test]
fn test_length_of_array_text_and_table() {
    let h = table(vec![
        (
            "arr",
            HeaderValue::Array(vec![
                HeaderValue::Integer(1),
                HeaderValue::Integer(2),
                HeaderValue::Integer(3),
            ]),
        ),
        ("txt", HeaderValue::Text(chars("abcd"))),
        ("tab", table(vec![("x", HeaderValue::Integer(1)), ("y", HeaderValue::Integer(2))])),
    ]);
    assert_eq!(eval("length(arr) ==/eq 3", &h), Ok(true));
    assert_eq!(eval("length(txt) ==/eq 4", &h), Ok(true));
    assert_eq!(eval("length(tab) ==/eq 1", &h), Ok(true));
    assert_eq!(eval("length(arr) ==/eq 4", &h), Ok(false));
}

#[test]
fn test_keys_values_on_non_table_is_false() {
    let h = table(vec![("a", HeaderValue::Integer(2))]);
    assert_eq!(eval("keys(a) is 1", &h), Ok(false));
    assert_eq!(eval("values(a) is 1", &h), Ok(false));
    // even under negation the clause stays false
    assert_eq!(eval("not keys(a) is 1", &h), Ok(false));
}

#[test]
fn test_combinator_fold() {
    let h = table(vec![("a", HeaderValue::Integer(1)), ("b", HeaderValue::Integer(3))]);
    assert_eq!(eval("a ==/eq 1 and b ==/eq 2", &h), Ok(false));
    assert_eq!(eval("a ==/eq 1 or b ==/eq 2", &h), Ok(true));
    let hh = table(vec![("a", HeaderValue::Integer(1)), ("b", HeaderValue::Integer(1))]);
    assert_eq!(eval("a ==/eq 1 xor b ==/eq 1", &hh), Ok(false));
    assert_eq!(eval("a ==/eq 1 xor b ==/eq 2", &hh), Ok(true));
    // `is` tests the value's type, so over a=1, b=3 both clauses hold
    assert_eq!(eval("a is 1 and b is 2", &h), Ok(true));
    assert_eq!(eval("a is 1 or b is 2", &h), Ok(true));
    assert_eq!(eval("a is 1 xor b is 1", &hh), Ok(false));
}

#[test]
fn test_negation() {
    let h = table(vec![("a", HeaderValue::Integer(2))]);
    assert_eq!(eval("not a ==/eq 1", &h), Ok(true));
    assert_eq!(eval("not a ==/eq 2", &h), Ok(false));
    // `is` tests the value's type: a=2 is an integer, so negation gives false
    assert_eq!(eval("not a is 1", &h), Ok(false));
}

#[test]
fn test_missing_path_is_false() {
    let h = table(vec![("a", HeaderValue::Integer(1))]);
    assert_eq!(eval("nope ==/eq 1", &h), Ok(false));
    assert_eq!(eval("a.b.c ==/eq 1", &table(vec![])), Ok(false));
    // negation does not apply to the missing-path verdict
    assert_eq!(eval("not nope ==/eq 1", &h), Ok(false));
}

#[test]
fn test_nested_path_resolution() {
    let h = table(vec![(
        "a",
        table(vec![("b", table(vec![("c", HeaderValue::Integer(42))]))]),
    )]);
    assert_eq!(eval("a.b.c ==/eq 42", &h), Ok(true));
    assert_eq!(eval("a.b.c ==/eq 41", &h), Ok(false));
    assert_eq!(eval("a.b.d ==/eq 42", &h), Ok(false));
}

#[test]
fn test_path_through_non_table_is_read_error() {
    let h = table(vec![("a", HeaderValue::Integer(1))]);
    assert_eq!(eval("a.b ==/eq 1", &h), Err(EvalError::ReadTypeError));
}

#[test]
fn test_comparator_error_surfaces_from_evaluation() {
    let h = table(vec![("a", HeaderValue::Integer(1))]);
    assert_eq!(eval("a is [1]", &h), Err(EvalError::ComparatorTypeError));
    assert_eq!(eval("a ==/eq [1,2]", &h), Err(EvalError::ComparatorTypeError));
}

#[test]
fn test_every_clause_is_evaluated() {
    // an error in a later clause surfaces even when the running result
    // could already be known
    let h = table(vec![("a", HeaderValue::Integer(1))]);
    assert_eq!(eval("a ==/eq 1 or a is [1]", &h), Err(EvalError::ComparatorTypeError));
    assert_eq!(eval("not a ==/eq 1 and a is [1]", &h), Err(EvalError::ComparatorTypeError));
}

#[test]
fn test_in_on_integers() {
    let h = table(vec![("a", HeaderValue::Integer(7))]);
    assert_eq!(eval("a in 7", &h), Ok(true));
    assert_eq!(eval("a in 8", &h), Ok(false));
    assert_eq!(eval("a in [6,7,8]", &h), Ok(true));
    assert_eq!(eval("a in [1 2]", &h), Ok(false));
}

#[test]
fn test_evaluate_entry_point() {
    let h = table(vec![("a", HeaderValue::Integer(1))]);
    let q = parse("a ==/eq 1").unwrap();
    assert_eq!(evaluate(&q, &h), Ok(true));
    assert_eq!(evaluate(&q, &table(vec![])), Ok(false));
}

#[test]
fn test_boolean_header_values_match_nothing() {
    let h = table(vec![("a", HeaderValue::Boolean(true))]);
    assert_eq!(eval("a is 1", &h), Ok(false));
    assert_eq!(eval("a ==/eq 1", &h), Ok(false));
    assert_eq!(eval("a in [1]", &h), Ok(false));
}
