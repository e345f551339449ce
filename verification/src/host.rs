//! The host capability for spawning commands.
//!
//! Tokenizing a command line and spawning a process are the host's business:
//! the engine hands a command string out through this trait and takes back
//! the exit code and the captured output streams. Nothing is assumed about
//! what comes back; the `exec` handler is verified for every outcome.

use vstd::prelude::*;

verus! {

/// What running one command produced.
pub struct ExecOutcome {
    /// The exit code, if the process ended with one.
    pub code: Option<i32>,
    /// Captured standard output.
    pub stdout: String,
    /// Captured standard error.
    pub stderr: String,
}

/// Mathematical view of a command outcome.
pub struct OutcomeV {
    pub code: Option<i32>,
    pub out: Seq<char>,
    pub err: Seq<char>,
}

impl View for ExecOutcome {
    type V = OutcomeV;

    open spec fn view(&self) -> OutcomeV {
        OutcomeV { code: self.code, out: self.stdout@, err: self.stderr@ }
    }
}

/// A host that can run one command line synchronously. `Err` is a spawn
/// failure and aborts the run. The ghost history records every command line
/// the host was asked to run, in order; nothing is assumed about what comes
/// back.
pub trait Host {
    /// Whether this host records its command history; hosts that do not
    /// leave the defaults, and the history clauses then demand nothing.
    open spec fn tracks_history(&self) -> bool {
        false
    }

    /// The command lines asked for so far, in order.
    open spec fn history(&self) -> Seq<Seq<char>> {
        Seq::empty()
    }

    /// Runs `cmd` and reports what it produced.
    fn run_command(&mut self, cmd: &String) -> (r: Result<ExecOutcome, String>)
        ensures
            old(self).tracks_history() ==> final(self).tracks_history() && final(self).history()
                == old(self).history().push(cmd@),
    ;
}

/// A host that replays scripted outcomes in order and records the command
/// lines it was asked to run; the testing double for the process boundary.
pub struct ReplayHost {
    /// The outcomes to hand out, first to last.
    pub outcomes: Vec<ExecOutcome>,
    /// How many outcomes were already handed out.
    pub served: usize,
    /// The command lines asked for, in order.
    pub calls: Vec<String>,
}

impl ReplayHost {
    /// A host that will replay the given outcomes.
    pub fn new(outcomes: Vec<ExecOutcome>) -> ReplayHost {
        ReplayHost { outcomes, served: 0, calls: Vec::new() }
    }
}

impl Host for ReplayHost {
    open spec fn tracks_history(&self) -> bool {
        true
    }

    open spec fn history(&self) -> Seq<Seq<char>> {
        self.calls.deep_view()
    }

    fn run_command(&mut self, cmd: &String) -> (r: Result<ExecOutcome, String>)
        ensures
            old(self).tracks_history() ==> final(self).tracks_history() && final(self).history()
                == old(self).history().push(cmd@),
    {
        let ghost calls0 = self.calls.deep_view();
        self.calls.push(cmd.clone());
        proof {
            assert(self.calls.deep_view() =~= calls0.push(cmd@));
        }
        if self.served < self.outcomes.len() {
            let o = &self.outcomes[self.served];
            self.served = self.served + 1;
            Ok(ExecOutcome { code: o.code, stdout: o.stdout.clone(), stderr: o.stderr.clone() })
        } else {
            Err(String::from_str("no scripted outcome"))
        }
    }
}

} // verus!
