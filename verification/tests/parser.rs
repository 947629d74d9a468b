use header_filter_lang::ast::{CompareOp, Function, Operator, Selector, Unary, Value};
use header_filter_lang::grammar::{
    compare_op, function, integer, list_of_val, operator, selector, selector_str, string,
    unary_operator, val, Expected, ParseError,
};
use header_filter_lang::parse;

fn chars(s: &str) -> Vec<char> {
    s.chars().collect()
}

#[test]
fn test_unary() {
    assert_eq!(unary_operator("not").unwrap().1, Unary::Not);
}

#[test]
fn test_compare_op() {
    assert_eq!(compare_op("is").unwrap().1, CompareOp::OpIs);
    assert_eq!(compare_op("in").unwrap().1, CompareOp::OpIn);
    assert_eq!(compare_op("==/eq").unwrap().1, CompareOp::OpEq);
    assert_eq!(compare_op("!=/neq").unwrap().1, CompareOp::OpNeq);
    assert_eq!(compare_op(">=").unwrap().1, CompareOp::OpGte);
    assert_eq!(compare_op("<=").unwrap().1, CompareOp::OpLte);
    assert_eq!(compare_op("<").unwrap().1, CompareOp::OpLt);
    assert_eq!(compare_op(">").unwrap().1, CompareOp::OpGt);
}

#[test]
fn test_operator() {
    assert_eq!(operator("or").unwrap().1, Operator::Or);
    assert_eq!(operator("and").unwrap().1, Operator::And);
    assert_eq!(operator("xor").unwrap().1, Operator::Xor);
}

#[test]
fn test_function() {
    assert_eq!(function("length").unwrap().1, Function::Length);
    assert_eq!(function("keys").unwrap().1, Function::Keys);
    assert_eq!(function("values").unwrap().1, Function::Values);
}

#[test]
fn test_integer() {
    assert_eq!(integer("12").unwrap().1, 12);
    assert_eq!(integer("11292").unwrap().1, 11292);
    assert_eq!(integer("-12").unwrap().1, -12);
    assert_eq!(integer("10101012").unwrap().1, 10101012);
}

#[test]
fn test_string() {
    assert_eq!(string("\"foo\"").unwrap().1, chars("foo"));
}

#[test]
fn test_val() {
    assert_eq!(val("12").unwrap().1, Value::Integer(12));
    assert_eq!(val("\"foobar\"").unwrap().1, Value::String(chars("foobar")));
}

#[test]
fn test_list_of_val() {
    {
        let list = list_of_val("[]");
        println!("list: {:?}", list);
        let vals = list.unwrap().1;
        assert_eq!(vals, vec![]);
    }

    {
        let list = list_of_val("[1]");
        println!("list: {:?}", list);
        let vals = list.unwrap().1;
        assert_eq!(vals, vec![Value::Integer(1)]);
    }

    {
        let list = list_of_val("[12,13]");
        println!("list: {:?}", list);
        let vals = list.unwrap().1;
        assert_eq!(vals, vec![Value::Integer(12), Value::Integer(13)]);
    }

    {
        let vals = list_of_val("[\"foobar\",\"bazbaz\"]").unwrap().1;
        let expt = vec![Value::String(chars("foobar")), Value::String(chars("bazbaz"))];
        assert_eq!(vals, expt)
    }
}

#[test]
fn test_selector_str() {
    assert_eq!(selector_str("foo.bar baz").unwrap().1, chars("foo.bar"));
}

#[test]
fn test_selector() {
    assert_eq!(selector("foo.bar baz").unwrap().1, Selector::Direct(chars("foo.bar")));

    let exp = Selector::Function(Function::Length, chars("foo.bar"));
    assert_eq!(selector("length(foo.bar)").unwrap().1, exp);
}

#[test]
fn test_integer_signs() {
    assert_eq!(integer("+7").unwrap().1, 7);
    assert_eq!(integer("-7").unwrap().1, -7);
    assert_eq!(integer("7").unwrap().1, 7);
    assert_eq!(integer("0").unwrap().1, 0);
}

#[test]
fn test_integer_full_range() {
    assert_eq!(integer("9223372036854775807").unwrap().1, i64::MAX);
    assert_eq!(integer("-9223372036854775808").unwrap().1, i64::MIN);
}

#[test]
fn test_integer_overflow_is_error() {
    assert_eq!(
        integer("9223372036854775808"),
        Err(ParseError::SyntaxError { position: 0, expected: Expected::Integer })
    );
    assert_eq!(
        integer("-9223372036854775809"),
        Err(ParseError::SyntaxError { position: 1, expected: Expected::Integer })
    );
}

#[test]
fn test_string_empty_and_stops_at_quote() {
    assert_eq!(string("\"\"").unwrap().1, chars(""));
    let (consumed, text) = string("\"ab\"cd").unwrap();
    assert_eq!(consumed, 4);
    assert_eq!(text, chars("ab"));
}

#[test]
fn test_string_unterminated_is_incomplete() {
    assert_eq!(
        string("\"foo"),
        Err(ParseError::IncompleteInput { expected: Expected::Quote })
    );
}

#[test]
fn test_list_whitespace_and_comma_forms() {
    let both = vec![Value::Integer(1), Value::Integer(2)];
    assert_eq!(list_of_val("[1,2]").unwrap().1, both);
    assert_eq!(list_of_val("[1 2]").unwrap().1, both);
    assert_eq!(list_of_val("[1, 2]").unwrap().1, both);
    assert_eq!(list_of_val("[1,]").unwrap().1, vec![Value::Integer(1)]);
    assert_eq!(list_of_val("[ ]").unwrap().1, vec![]);
}

#[test]
fn test_parse_single_clause() {
    let q = parse("a is 1").unwrap();
    assert_eq!(q.filter.unary, None);
    assert_eq!(q.filter.selector, Selector::Direct(chars("a")));
    assert_eq!(q.filter.compare_operator, CompareOp::OpIs);
    assert_eq!(q.next_filters.len(), 0);
}

#[test]
fn test_parse_chain_and_negation() {
    let q = parse("not a is 1 and b.c in [1 2] or length(x) >= -3").unwrap();
    assert_eq!(q.filter.unary, Some(Unary::Not));
    assert_eq!(q.filter.selector, Selector::Direct(chars("a")));
    assert_eq!(q.next_filters.len(), 2);
    assert_eq!(q.next_filters[0].0, Operator::And);
    assert_eq!(q.next_filters[0].1.selector, Selector::Direct(chars("b.c")));
    assert_eq!(q.next_filters[0].1.compare_operator, CompareOp::OpIn);
    assert_eq!(q.next_filters[1].0, Operator::Or);
    assert_eq!(
        q.next_filters[1].1.selector,
        Selector::Function(Function::Length, chars("x"))
    );
    assert_eq!(q.next_filters[1].1.compare_operator, CompareOp::OpGte);
}

#[test]
fn test_parse_empty_query_is_error() {
    assert_eq!(parse(""), Err(ParseError::IncompleteInput { expected: Expected::Selector }));
    assert_eq!(parse("   "), Err(ParseError::IncompleteInput { expected: Expected::Selector }));
}

#[test]
fn test_parse_truncated_query_is_incomplete() {
    assert_eq!(
        parse("a is"),
        Err(ParseError::IncompleteInput { expected: Expected::Operand })
    );
    assert_eq!(
        parse("a is 1 and"),
        Err(ParseError::IncompleteInput { expected: Expected::Selector })
    );
}

#[test]
fn test_parse_stray_text_is_syntax_error() {
    assert_eq!(
        parse("a is 1 banana b is 2"),
        Err(ParseError::SyntaxError { position: 7, expected: Expected::Combinator })
    );
    assert_eq!(
        parse("a @@ 1"),
        Err(ParseError::SyntaxError { position: 2, expected: Expected::CompareOp })
    );
}

#[test]
fn test_parse_word_not_needs_whitespace_to_negate() {
    let q = parse("nothing is 1").unwrap();
    assert_eq!(q.filter.unary, None);
    assert_eq!(q.filter.selector, Selector::Direct(chars("nothing")));
}
