//! Control-flow outcomes and run errors.
//!
//! Every step yields `Done`, a `Break` carrying a message, or an `Exit`
//! carrying a status; `Break` is consumed by the nearest enclosing loop or by
//! the runner, `Exit` by nothing short of the host. Errors abort the run.

use vstd::prelude::*;

verus! {

/// Mathematical view of a control-flow outcome.
pub enum FlowV {
    Done,
    Break(Seq<char>),
    Exit(i32),
}

#[derive(Debug, PartialEq)]
/// What a step or step sequence ended with.
pub enum Flow {
    /// Execution continues with the next step.
    Done,
    /// Early exit with a message, intercepted by `while`/`each` or the runner.
    Break(String),
    /// Terminate the whole run with a status; nothing intercepts it.
    Exit(i32),
}

impl View for Flow {
    type V = FlowV;

    open spec fn view(&self) -> FlowV {
        match self {
            Flow::Done => FlowV::Done,
            Flow::Break(m) => FlowV::Break(m@),
            Flow::Exit(c) => FlowV::Exit(*c),
        }
    }
}

/// Mathematical view of a run error.
pub enum ErrV {
    Depth,
    Malformed(Seq<char>),
    NoProc(Seq<char>),
    Expr,
    NoNumber,
    Spawn(Seq<char>),
}

#[derive(Debug, PartialEq)]
/// A condition that aborts the run.
pub enum Error {
    /// The nesting budget ran out.
    Depth,
    /// A structural fault in the script; the message names what was missing
    /// or of the wrong kind.
    Malformed(String),
    /// `call` named a procedure that was never defined.
    NoProc(String),
    /// An expression failed to parse or evaluate.
    Expr,
    /// A number was required (by `exit`) and the value was none.
    NoNumber,
    /// The host could not spawn a command.
    Spawn(String),
}

impl View for Error {
    type V = ErrV;

    open spec fn view(&self) -> ErrV {
        match self {
            Error::Depth => ErrV::Depth,
            Error::Malformed(m) => ErrV::Malformed(m@),
            Error::NoProc(m) => ErrV::NoProc(m@),
            Error::Expr => ErrV::Expr,
            Error::NoNumber => ErrV::NoNumber,
            Error::Spawn(m) => ErrV::Spawn(m@),
        }
    }
}

/// Diagnostic text of an error.
pub open spec fn spec_error_text(e: ErrV) -> Seq<char> {
    match e {
        ErrV::Depth => "nesting budget exceeded"@,
        ErrV::Malformed(m) => "malformed step: "@ + m,
        ErrV::NoProc(m) => "procedure not found: "@ + m,
        ErrV::Expr => "expression error"@,
        ErrV::NoNumber => "expected number"@,
        ErrV::Spawn(m) => "spawn failure: "@ + m,
    }
}

impl Error {
    /// Diagnostic text, exactly `spec_error_text`.
    pub fn text(&self) -> (r: String)
        ensures
            r@ == spec_error_text(self@),
    {
        match self {
            Error::Depth => String::from_str("nesting budget exceeded"),
            Error::Malformed(m) => String::from_str("malformed step: ").concat(m.as_str()),
            Error::NoProc(m) => String::from_str("procedure not found: ").concat(m.as_str()),
            Error::Expr => String::from_str("expression error"),
            Error::NoNumber => String::from_str("expected number"),
            Error::Spawn(m) => String::from_str("spawn failure: ").concat(m.as_str()),
        }
    }
}

} // verus!
