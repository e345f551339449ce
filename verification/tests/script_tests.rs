//! Runner-level behaviour: step sequences, documents, break and exit
//! reaching the top.

use ys::host::ReplayHost;
use ys::{Error, Flow, Node, Script};

fn s(text: &str) -> Node {
    Node::Str(text.to_string())
}

fn step(key: &str, val: Node) -> Node {
    Node::Hash(vec![(s(key), val)])
}

fn host() -> ReplayHost {
    ReplayHost::new(Vec::new())
}

#[test]
fn run_steps() {
    let mut script = Script::new(String::new(), Some(Vec::new()));
    let steps = vec![step("a", Node::Int(42)), step("echo", s("foo"))];

    let mut h = host();
    let _ = script.run_steps(&mut h, &steps);
    assert_eq!(Node::Int(42), script.binding.var("a"));
    assert_eq!("foo", script.writer.log[0]);
}

#[test]
fn run_docs_while_break() {
    let mut script = Script::new(String::new(), None);
    let docs = vec![Node::Array(vec![Node::Hash(vec![
        (s("while"), Node::Bool(true)),
        (s("do"), Node::Array(vec![step("break", Node::Bool(true))])),
    ])])];

    let mut h = host();
    assert_eq!(Flow::Done, script.run_docs(&mut h, &docs).unwrap());
}

#[test]
fn run_docs_each_break() {
    let mut script = Script::new(String::new(), None);
    let docs = vec![Node::Array(vec![Node::Hash(vec![
        (s("each"), s("x")),
        (s("in"), Node::Array(vec![Node::Int(1), Node::Int(2)])),
        (s("do"), Node::Array(vec![step("break", Node::Bool(true))])),
    ])])];

    let mut h = host();
    assert_eq!(Flow::Done, script.run_docs(&mut h, &docs).unwrap());
}

#[test]
fn run_docs_break() {
    let mut script = Script::new(String::new(), Some(Vec::new()));
    let docs = vec![Node::Array(vec![step("break", Node::Bool(true))])];

    let mut h = host();
    let flow = script.run_docs(&mut h, &docs).unwrap();
    assert_eq!(Flow::Break("(break)".to_string()), flow);
}

#[test]
fn run_delivers_break_message() {
    let mut script = Script::new(String::new(), Some(Vec::new()));
    let docs = vec![Node::Array(vec![Node::Hash(vec![
        (s("break"), Node::Bool(true)),
        (s("message"), s("bye")),
    ])])];

    let mut h = host();
    assert_eq!(None, script.run(&mut h, &docs).unwrap());
    assert_eq!(vec!["bye".to_string()], script.writer.log);
}

#[test]
fn run_returns_exit_status() {
    let mut script = Script::new(String::new(), Some(Vec::new()));
    let docs = vec![Node::Array(vec![
        step("echo", s("before")),
        step("exit", Node::Int(7)),
        step("echo", s("after")),
    ])];

    let mut h = host();
    assert_eq!(Some(7), script.run(&mut h, &docs).unwrap());
    assert_eq!(vec!["before".to_string()], script.writer.log);
}

#[test]
fn run_steps_fuel_exhausted() {
    let mut script = Script::new(String::new(), None);
    let steps = vec![step("a", Node::Int(1))];

    let mut h = host();
    let r = script.run_steps_fuel(&mut h, &steps, 0);
    assert_eq!(Error::Depth, r.unwrap_err());
}

#[test]
fn run_docs_rejects_non_mapping_step() {
    let mut script = Script::new(String::new(), None);
    let docs = vec![Node::Array(vec![Node::Int(3)])];

    let mut h = host();
    let r = script.run_docs(&mut h, &docs);
    assert_eq!(Error::Malformed("expected mapping".to_string()), r.unwrap_err());
}

#[test]
fn run_docs_rejects_non_list_document() {
    let mut script = Script::new(String::new(), None);
    let docs = vec![Node::Int(3)];

    let mut h = host();
    let r = script.run_docs(&mut h, &docs);
    assert_eq!(Error::Malformed("expected list".to_string()), r.unwrap_err());
}

#[test]
fn while_loop_counts_up() {
    let mut script = Script::new(String::new(), Some(Vec::new()));
    let steps = vec![
        step("a", Node::Int(0)),
        Node::Hash(vec![
            (s("while"), s("${a < 3}")),
            (s("do"), Node::Array(vec![step("a", s("${a + 1}")), step("echo", s("${a}"))])),
        ]),
    ];

    let mut h = host();
    assert_eq!(Flow::Done, script.run_steps(&mut h, &steps).unwrap());
    assert_eq!(Node::Int(3), script.binding.var("a"));
    assert_eq!(vec!["1".to_string(), "2".to_string(), "3".to_string()], script.writer.log);
}

#[test]
fn break_in_called_procedure_stops_each() {
    // An uncaught break inside a procedure unwinds through the call and is
    // intercepted by the enclosing `each`, not by `call`.
    let mut script = Script::new(String::new(), Some(Vec::new()));
    let docs = vec![Node::Array(vec![
        Node::Hash(vec![
            (s("def"), s("brk")),
            (s("do"), Node::Array(vec![step("break", Node::Bool(true))])),
        ]),
        Node::Hash(vec![
            (s("each"), s("x")),
            (
                s("in"),
                Node::Array(vec![Node::Int(1), Node::Int(2), Node::Int(3)]),
            ),
            (
                s("do"),
                Node::Array(vec![step("call", s("brk")), step("echo", s("${x}"))]),
            ),
        ]),
        step("echo", s("done")),
    ])];

    let mut h = host();
    assert_eq!(None, script.run(&mut h, &docs).unwrap());
    // the loop stopped in its first iteration, the loop variable keeps the
    // value from the interrupted iteration, and the run went on after it
    assert_eq!(Node::Int(1), script.binding.var("x"));
    assert_eq!(vec!["done".to_string()], script.writer.log);
}

#[test]
fn error_text_forms() {
    assert_eq!("nesting budget exceeded", Error::Depth.text());
    assert_eq!(
        "malformed step: expected list",
        Error::Malformed("expected list".to_string()).text(),
    );
    assert_eq!("procedure not found: foo", Error::NoProc("foo".to_string()).text());
    assert_eq!("expression error", Error::Expr.text());
    assert_eq!("expected number", Error::NoNumber.text());
    assert_eq!("spawn failure: gone", Error::Spawn("gone".to_string()).text());
}

#[test]
fn unknown_key_assigns_variable() {
    let mut script = Script::new(String::new(), None);
    let steps = vec![step("total", s("${2 + 3}"))];

    let mut h = host();
    assert_eq!(Flow::Done, script.run_steps(&mut h, &steps).unwrap());
    assert_eq!(Node::Int(5), script.binding.var("total"));
}

#[test]
fn empty_step_is_malformed() {
    let mut script = Script::new(String::new(), None);
    let steps = vec![Node::Hash(Vec::new())];

    let mut h = host();
    let r = script.run_steps(&mut h, &steps);
    assert_eq!(Error::Malformed("empty step".to_string()), r.unwrap_err());
}

#[test]
fn non_string_key_is_malformed() {
    let mut script = Script::new(String::new(), None);
    let steps = vec![Node::Hash(vec![(Node::Int(1), Node::Int(2))])];

    let mut h = host();
    let r = script.run_steps(&mut h, &steps);
    assert_eq!(Error::Malformed("expected string key".to_string()), r.unwrap_err());
}
