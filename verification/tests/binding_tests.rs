//! The binding environment: shadow-aware assignment, evaluation,
//! truthiness.

use ys::binding::Binding;
use ys::{Node, Value};

fn s(text: &str) -> Node {
    Node::Str(text.to_string())
}

#[test]
fn set_var() {
    let mut binding = Binding::new();

    binding.set_var("a", Node::Int(1));
    assert_eq!(Some(&Node::Int(1)), binding.vars.get("a"));
}

#[test]
fn set_var_param() {
    let mut binding = Binding::new();
    binding.set_param("a", Node::Int(1));

    binding.set_var("a", Node::Int(1));
    assert_eq!(Node::Int(1), binding.param("a"));
    assert_eq!(None, binding.vars.get("a"));
}

#[test]
fn binding_eval() {
    let mut binding = Binding::new();
    binding.set_var("a", Node::Int(1));
    binding.set_var("b", Node::Int(2));

    for e in vec![
        (Node::Int(0), Value::Int(0)),
        (Node::Real("1.0".to_string()), Value::Real("1.0".to_string())),
        (Node::Bool(true), Value::Bool(true)),
        (s("${a}"), Value::Int(1)),
        (s("${a + b}"), Value::Int(3)),
        (s("${a}, ${b}"), Value::Str("1, 2".to_string())),
        (s("a+b = ${a + b}"), Value::Str("a+b = 3".to_string())),
        (s("${a == 1}"), Value::Bool(true)),
    ] {
        assert_eq!(e.1, binding.eval(&e.0).unwrap(), "{e:?}");
    }
}

#[test]
fn is_truthy() {
    let binding = Binding::new();

    for e in vec![
        (Node::Bool(true), true),
        (Node::Bool(false), false),
        (Node::Int(1), true),
        (Node::Int(0), false),
        (s("foo"), true),
        (s(""), false),
    ] {
        assert_eq!(Some(e.1), binding.is_truthy(&e.0), "{e:?}");
    }
}

#[test]
fn is_truthy_reals_and_null() {
    let binding = Binding::new();

    for e in vec![
        (Node::Real("0.0".to_string()), false),
        (Node::Real("-0.00e7".to_string()), false),
        (Node::Real("1.5".to_string()), true),
        (Node::Real("0.01".to_string()), true),
        (Node::Null, false),
    ] {
        assert_eq!(Some(e.1), binding.is_truthy(&e.0), "{e:?}");
    }
}

#[test]
fn var_prefers_param() {
    let mut binding = Binding::new();
    binding.set_var("a", Node::Int(1));
    binding.set_param("a", Node::Int(2));

    assert_eq!(Node::Int(2), binding.var("a"));
    assert_eq!(Node::Null, binding.var("missing"));
}

#[test]
fn eval_to_i32_errors() {
    let binding = Binding::new();

    assert_eq!(Ok(3), binding.eval_to_i32(&Node::Int(3)));
    // out of the 32-bit range becomes 0
    assert_eq!(Ok(0), binding.eval_to_i32(&Node::Int(99_999_999_999)));
    assert_eq!(Err(ys::Error::NoNumber), binding.eval_to_i32(&Node::Bool(true)));
    assert_eq!(Err(ys::Error::Expr), binding.eval_to_i32(&s("${1 / 0}")));
}

#[test]
fn entry_to_list_errors() {
    let hash = vec![(s("do"), Node::Int(1))];
    assert_eq!(
        Err(ys::Error::Malformed("expected list".to_string())),
        Binding::entry_to_list(&hash, "do"),
    );
    assert_eq!(
        Err(ys::Error::Malformed("missing entry".to_string())),
        Binding::entry_to_list(&hash, "in"),
    );
}
