//! The step handlers, one by one.

use ys::host::{ExecOutcome, ReplayHost};
use ys::semantics::DEFAULT_FUEL;
use ys::{break_step, call, def, each, echo, exec, exit, if_step, step, var, while_step};
use ys::{Error, Flow, Node, Script};

fn s(text: &str) -> Node {
    Node::Str(text.to_string())
}

fn one(key: &str, val: Node) -> Node {
    Node::Hash(vec![(s(key), val)])
}

fn host() -> ReplayHost {
    ReplayHost::new(Vec::new())
}

#[test]
fn break_run() {
    let mut script = Script::new(String::new(), None);

    let r = break_step::run(&mut script, &Node::Bool(true), &Vec::new()).unwrap();
    assert_eq!(Flow::Break("(break)".to_string()), r);
}

#[test]
fn run_message() {
    let mut script = Script::new(String::new(), None);
    let hash = vec![(s("message"), s("foo"))];

    let r = break_step::run(&mut script, &Node::Bool(true), &hash).unwrap();
    assert_eq!(Flow::Break("foo".to_string()), r);
}

#[test]
fn break_falsy_is_noop() {
    let mut script = Script::new(String::new(), None);

    let r = break_step::run(&mut script, &Node::Bool(false), &Vec::new()).unwrap();
    assert_eq!(Flow::Done, r);
}

#[test]
fn call_run() {
    let mut script = Script::new(String::new(), None);
    let mut h = host();
    let docs = vec![Node::Array(vec![Node::Hash(vec![
        (s("def"), s("foo")),
        (s("do"), Node::Array(vec![one("a", Node::Int(1))])),
    ])])];
    script.run_docs(&mut h, &docs).unwrap();

    call::run(&mut script, &mut h, &s("foo"), &Vec::new(), DEFAULT_FUEL).unwrap();
    assert_eq!(Node::Int(1), script.binding.var("a"));
}

#[test]
fn run_with() {
    let mut script = Script::new(String::new(), Some(Vec::new()));
    let mut h = host();
    let hash = vec![(s("with"), Node::Hash(vec![(s("a"), Node::Int(1))]))];
    let docs = vec![Node::Array(vec![Node::Hash(vec![
        (s("def"), s("foo")),
        (
            s("do"),
            Node::Array(vec![one("a", s("${a + 1}")), one("echo", s("${a}"))]),
        ),
    ])])];
    script.run_docs(&mut h, &docs).unwrap();

    call::run(&mut script, &mut h, &s("foo"), &hash, DEFAULT_FUEL).unwrap();
    assert_eq!("2", script.writer.log[0]);
    assert_eq!(None, script.binding.vars.get("a"));
}

#[test]
fn run_nested() {
    let mut script = Script::new(String::new(), Some(Vec::new()));
    let mut h = host();
    let hash = vec![(s("with"), Node::Hash(vec![(s("a"), Node::Int(1))]))];

    let bar = Node::Hash(vec![
        (s("def"), s("bar")),
        (
            s("do"),
            Node::Array(vec![
                one("a", s("${a + 1}")),
                one("echo", s("bar: a=${a}, b=${b}")),
            ]),
        ),
    ]);
    let foo = Node::Hash(vec![
        (s("def"), s("foo")),
        (
            s("do"),
            Node::Array(vec![
                Node::Hash(vec![
                    (s("call"), s("bar")),
                    (
                        s("with"),
                        Node::Hash(vec![(s("a"), s("${a}")), (s("b"), Node::Int(1))]),
                    ),
                ]),
                one("echo", s("foo: a=${a}")),
            ]),
        ),
    ]);
    script.run_docs(&mut h, &vec![Node::Array(vec![bar, foo])]).unwrap();

    call::run(&mut script, &mut h, &s("foo"), &hash, DEFAULT_FUEL).unwrap();
    assert_eq!("bar: a=2, b=1", script.writer.log[0]);
    assert_eq!("foo: a=1", script.writer.log[1]);
}

#[test]
fn call_unknown_procedure() {
    let mut script = Script::new(String::new(), None);
    let mut h = host();

    let r = call::run(&mut script, &mut h, &s("nope"), &Vec::new(), DEFAULT_FUEL);
    assert_eq!(Error::NoProc("nope".to_string()), r.unwrap_err());
}

#[test]
fn call_sees_caller_params() {
    // dynamic scoping: a caller parameter not named in `with:` stays
    // visible inside the callee
    let mut script = Script::new(String::new(), Some(Vec::new()));
    let mut h = host();
    let docs = vec![Node::Array(vec![Node::Hash(vec![
        (s("def"), s("p")),
        (s("do"), Node::Array(vec![one("echo", s("${c}"))])),
    ])])];
    script.run_docs(&mut h, &docs).unwrap();
    script.binding.set_param("c", Node::Int(9));

    call::run(&mut script, &mut h, &s("p"), &Vec::new(), DEFAULT_FUEL).unwrap();
    assert_eq!("9", script.writer.log[0]);
    assert_eq!(Node::Int(9), script.binding.param("c"));
}

#[test]
fn def_run() {
    let mut script = Script::new(String::new(), None);
    let body = Node::Array(vec![one("a", Node::Int(42))]);
    let hash = vec![(s("do"), body.deep_copy())];

    def::run(&mut script, &s("foo"), &hash).unwrap();
    assert_eq!(Some(body), script.binding.proc("foo"));
}

#[test]
fn each_run() {
    let mut script = Script::new(String::new(), Some(Vec::new()));
    let mut h = host();
    let hash = vec![
        (s("in"), Node::Array(vec![Node::Int(1), Node::Int(2)])),
        (s("do"), Node::Array(vec![one("echo", s("${x}"))])),
    ];

    each::run(&mut script, &mut h, &s("x"), &hash, DEFAULT_FUEL).unwrap();
    assert_eq!(Node::Int(2), script.binding.var("x"));
    assert_eq!("1", script.writer.log[0]);
    assert_eq!("2", script.writer.log[1]);
}

#[test]
fn echo_run() {
    let mut script = Script::new(String::new(), Some(Vec::new()));
    script.binding.set_var("a", Node::Int(41));

    echo::run(&mut script, &s("answer: ${a + 1}")).unwrap();
    assert_eq!("answer: 42", script.writer.log[0]);
}

#[test]
fn exec_run() {
    let mut script = Script::new(String::new(), None);
    let mut h = ReplayHost::new(vec![ExecOutcome {
        code: Some(0),
        stdout: "1\n".to_string(),
        stderr: String::new(),
    }]);

    exec::run(&mut script, &mut h, &s("echo 1"), &Vec::new()).unwrap();
    assert_eq!(Node::Str("1".to_string()), script.binding.var("_"));
    assert_eq!(vec!["echo 1".to_string()], h.calls);
}

#[test]
fn run_as() {
    let mut script = Script::new(String::new(), None);
    let mut h = ReplayHost::new(vec![ExecOutcome {
        code: Some(0),
        stdout: "1\n".to_string(),
        stderr: String::new(),
    }]);
    let hash = vec![(s("as"), s("a"))];

    exec::run(&mut script, &mut h, &s("echo 1"), &hash).unwrap();
    assert_eq!(Node::Str("1".to_string()), script.binding.var("a"));
}

#[test]
fn exec_nonzero_captures_stderr() {
    let mut script = Script::new(String::new(), None);
    let mut h = ReplayHost::new(vec![ExecOutcome {
        code: Some(2),
        stdout: "out\n".to_string(),
        stderr: "oops\n".to_string(),
    }]);

    exec::run(&mut script, &mut h, &s("false x"), &Vec::new()).unwrap();
    assert_eq!(Node::Str("oops".to_string()), script.binding.var("_"));
}

#[test]
fn exec_no_code_captures_stderr() {
    let mut script = Script::new(String::new(), None);
    let mut h = ReplayHost::new(vec![ExecOutcome {
        code: None,
        stdout: "out".to_string(),
        stderr: "killed".to_string(),
    }]);

    exec::run(&mut script, &mut h, &s("x"), &Vec::new()).unwrap();
    assert_eq!(Node::Str("killed".to_string()), script.binding.var("_"));
}

#[test]
fn exec_spawn_failure() {
    let mut script = Script::new(String::new(), None);
    let mut h = host();

    let r = exec::run(&mut script, &mut h, &s("missing"), &Vec::new());
    assert_eq!(Error::Spawn("no scripted outcome".to_string()), r.unwrap_err());
}

#[test]
fn exec_capture_keeps_text_without_newline() {
    let out = ExecOutcome {
        code: Some(0),
        stdout: "plain".to_string(),
        stderr: String::new(),
    };
    assert_eq!("plain", exec::capture(&out));
}

#[test]
fn exit_run() {
    let mut script = Script::new(String::new(), None);

    assert_eq!(Flow::Exit(1), exit::run(&mut script, &Node::Int(1)).unwrap());
    assert_eq!(Error::NoNumber, exit::run(&mut script, &s("nope")).unwrap_err());
}

#[test]
fn run_then() {
    let mut script = Script::new(String::new(), None);
    let mut h = host();
    let hash = vec![(s("then"), Node::Array(vec![one("a", Node::Int(42))]))];

    if_step::run(&mut script, &mut h, &Node::Bool(true), &hash, DEFAULT_FUEL).unwrap();
    assert_eq!(Node::Int(42), script.binding.var("a"));
}

#[test]
fn run_else() {
    let mut script = Script::new(String::new(), None);
    let mut h = host();
    let hash = vec![(s("else"), Node::Array(vec![one("a", Node::Int(42))]))];

    if_step::run(&mut script, &mut h, &Node::Bool(false), &hash, DEFAULT_FUEL).unwrap();
    assert_eq!(Node::Int(42), script.binding.var("a"));
}

#[test]
fn if_missing_branch_is_error() {
    let mut script = Script::new(String::new(), None);
    let mut h = host();
    let hash = vec![(s("then"), Node::Array(Vec::new()))];

    let r = if_step::run(&mut script, &mut h, &Node::Bool(false), &hash, DEFAULT_FUEL);
    assert_eq!(Error::Malformed("missing entry".to_string()), r.unwrap_err());
}

#[test]
fn step_run() {
    let mut script = Script::new(String::new(), Some(Vec::new()));
    let mut h = host();

    let _ = step::run(&mut script, &mut h, &vec![(s("echo"), s("foo"))], DEFAULT_FUEL);
    assert_eq!("foo", script.writer.log[0]);
}

#[test]
fn var_run() {
    let mut script = Script::new(String::new(), None);

    var::run(&mut script, "a", &Node::Int(42)).unwrap();
    assert_eq!(Node::Int(42), script.binding.var("a"));

    var::run(&mut script, "b", &s("${a + 1}")).unwrap();
    assert_eq!(Node::Int(43), script.binding.var("b"));
}

#[test]
fn while_run() {
    let mut script = Script::new(String::new(), None);
    let mut h = host();
    let hash = vec![(s("do"), Node::Array(vec![one("a", Node::Int(42))]))];
    script.binding.set_var("a", Node::Int(1));

    while_step::run(&mut script, &mut h, &s("${a == 1}"), &hash, DEFAULT_FUEL).unwrap();
    assert_eq!(Node::Int(42), script.binding.var("a"));
}

#[test]
fn params_restored_after_call() {
    let mut script = Script::new(String::new(), None);
    let mut h = host();
    let docs = vec![Node::Array(vec![Node::Hash(vec![
        (s("def"), s("foo")),
        (s("do"), Node::Array(vec![one("a", s("${a + 1}"))])),
    ])])];
    script.run_docs(&mut h, &docs).unwrap();
    script.binding.set_param("q", Node::Int(5));

    let hash = vec![(s("with"), Node::Hash(vec![(s("a"), Node::Int(1))]))];
    call::run(&mut script, &mut h, &s("foo"), &hash, DEFAULT_FUEL).unwrap();

    // the parameter set before the call is exactly restored afterward: the
    // call's own parameter is gone, the caller's is back
    assert_eq!(Node::Null, script.binding.param("a"));
    assert_eq!(Node::Int(5), script.binding.param("q"));
    // and the write inside the procedure landed on the parameter, not on a
    // global variable
    assert_eq!(None, script.binding.vars.get("a"));
}

#[test]
fn while_missing_do_is_error() {
    let mut script = Script::new(String::new(), None);
    let mut h = host();

    let r = while_step::run(&mut script, &mut h, &Node::Bool(false), &Vec::new(), DEFAULT_FUEL);
    assert_eq!(Error::Malformed("missing entry".to_string()), r.unwrap_err());
}

#[test]
fn each_missing_in_is_error() {
    let mut script = Script::new(String::new(), None);
    let mut h = host();
    let hash = vec![(s("do"), Node::Array(Vec::new()))];

    let r = each::run(&mut script, &mut h, &s("x"), &hash, DEFAULT_FUEL);
    assert_eq!(Error::Malformed("missing entry".to_string()), r.unwrap_err());
}
