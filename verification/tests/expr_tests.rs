//! The expression evaluator and interpolation.

use ys::binding::Binding;
use ys::expr;
use ys::{Node, Value};

fn s(text: &str) -> Node {
    Node::Str(text.to_string())
}

fn env() -> Binding {
    let mut b = Binding::new();
    b.set_var("a", Node::Int(1));
    b.set_var("b", Node::Int(2));
    b
}

#[test]
fn expr_eval() {
    let b = env();

    for e in vec![
        (Node::Int(0), Value::Int(0)),
        (Node::Real("1.0".to_string()), Value::Real("1.0".to_string())),
        (Node::Bool(true), Value::Bool(true)),
        (s("${a}"), Value::Int(1)),
        (s("${a + b}"), Value::Int(3)),
        (s("${a}, ${b}"), Value::Str("1, 2".to_string())),
        (s("a+b = ${a + b}"), Value::Str("a+b = 3".to_string())),
        (s("${a == 1}"), Value::Bool(true)),
    ] {
        assert_eq!(e.1, expr::eval(&e.0, &b.vars, &b.params).unwrap(), "{e:?}");
    }
}

#[test]
fn interpolation_reparses_scalars() {
    let mut b = Binding::new();
    b.set_var("a", Node::Int(1));
    b.set_var("r", Node::Real("2.5".to_string()));
    b.set_var("t", Node::Bool(true));

    // a lone token yields the typed scalar, not a string
    assert_eq!(Value::Int(1), b.eval(&s("${a}")).unwrap());
    assert_eq!(Value::Real("2.5".to_string()), b.eval(&s("${r}")).unwrap());
    assert_eq!(Value::Bool(true), b.eval(&s("${t}")).unwrap());
    // embedded in text it stays a string
    assert_eq!(Value::Str("x=1".to_string()), b.eval(&s("x=${a}")).unwrap());
}

#[test]
fn plain_text_passes_through() {
    let b = Binding::new();

    // no token: dollars and braces pass through verbatim
    assert_eq!(Value::Str("$x {y} $".to_string()), b.eval(&s("$x {y} $")).unwrap());
    // an unclosed token is no token
    assert_eq!(Value::Str("${a".to_string()), b.eval(&s("${a")).unwrap());
    // a token with a disallowed character inside is no token
    assert_eq!(Value::Str("${a#b}".to_string()), b.eval(&s("${a#b}")).unwrap());
}

#[test]
fn undefined_name_is_null() {
    let b = Binding::new();

    assert_eq!(Value::Null, b.eval(&s("${missing}")).unwrap());
    assert_eq!(Value::Str("q=null".to_string()), b.eval(&s("q=${missing}")).unwrap());
    assert_eq!(Value::Bool(true), b.eval(&s("${missing == missing}")).unwrap());
}

#[test]
fn operator_precedence() {
    let b = env();

    assert_eq!(Value::Int(7), b.eval(&s("${1 + 2 * 3}")).unwrap());
    assert_eq!(Value::Int(5), b.eval(&s("${2 * 3 - 1}")).unwrap());
    assert_eq!(Value::Int(5), b.eval(&s("${2 - -3}")).unwrap());
    assert_eq!(Value::Bool(true), b.eval(&s("${true || false && false}")).unwrap());
    assert_eq!(Value::Bool(true), b.eval(&s("${1 + 1 == 2}")).unwrap());
    assert_eq!(Value::Bool(false), b.eval(&s("${!true}")).unwrap());
    assert_eq!(Value::Bool(true), b.eval(&s("${a < b}")).unwrap());
    assert_eq!(Value::Bool(true), b.eval(&s("${b >= 2}")).unwrap());
    assert_eq!(Value::Bool(true), b.eval(&s("${a != b}")).unwrap());
    assert_eq!(Value::Int(2), b.eval(&s("${7 / 3}")).unwrap());
    assert_eq!(Value::Int(1), b.eval(&s("${7 % 3}")).unwrap());
}

#[test]
fn string_values_concatenate() {
    let mut b = Binding::new();
    b.set_var("x", s("ab"));
    b.set_var("y", s("cd"));

    assert_eq!(Value::Str("abcd".to_string()), b.eval(&s("${x + y}")).unwrap());
}

#[test]
fn expression_failures() {
    let b = env();

    // empty token, division by zero, overflow, type mismatches, bad syntax
    for bad in vec![
        "${}",
        "${1 / 0}",
        "${1 % 0}",
        "${9223372036854775807 + 1}",
        "${9223372036854775808}",
        "${true + 1}",
        "${a +}",
        "${a b}",
        "${a & b}",
        "${= a}",
    ] {
        assert_eq!(None, b.eval(&s(bad)), "{bad}");
    }
}

#[test]
fn value_to_string_forms() {
    assert_eq!("null", expr::value_to_string(Value::Null));
    assert_eq!("true", expr::value_to_string(Value::Bool(true)));
    assert_eq!("false", expr::value_to_string(Value::Bool(false)));
    assert_eq!("42", expr::value_to_string(Value::Int(42)));
    assert_eq!("-7", expr::value_to_string(Value::Int(-7)));
    assert_eq!("0", expr::value_to_string(Value::Int(0)));
    assert_eq!(
        "-9223372036854775808",
        expr::value_to_string(Value::Int(i64::MIN)),
    );
    assert_eq!(
        "9223372036854775807",
        expr::value_to_string(Value::Int(i64::MAX)),
    );
    assert_eq!("1.50", expr::value_to_string(Value::Real("1.50".to_string())));
    assert_eq!("hi", expr::value_to_string(Value::Str("hi".to_string())));
}

#[test]
fn yaml_value_round_trip() {
    for v in vec![
        Value::Null,
        Value::Bool(false),
        Value::Int(-3),
        Value::Real("2.5".to_string()),
        Value::Str("text".to_string()),
    ] {
        let n = expr::value_to_yaml(v.clone());
        assert_eq!(Some(v), expr::yaml_to_value(&n));
    }
}

#[test]
fn containers_have_no_value() {
    let b = Binding::new();

    assert_eq!(None, b.eval(&Node::Array(Vec::new())));
    assert_eq!(None, b.eval(&Node::Hash(Vec::new())));
    assert_eq!(None, expr::yaml_to_value(&Node::Array(Vec::new())));
}

#[test]
fn substitution_is_single_pass() {
    // replacement text is never expanded again: scanning resumes after it
    let mut b = Binding::new();
    b.set_var("t", s("${x}"));
    b.set_var("x", Node::Int(5));

    assert_eq!(
        Value::Str("a ${x} b".to_string()),
        b.eval(&s("a ${t} b")).unwrap(),
    );
}
