//! The output sink.
//!
//! A `Writer` takes one line at a time and either records it in memory (for
//! embedding and tests) or prints it to standard output. The full history of
//! written lines is tracked as a ghost sequence, so contracts can speak of
//! output in either mode.

use std::io::Write;
use vstd::prelude::*;

verus! {

/// An ordered-line output sink.
pub struct Writer {
    /// The recorded lines, filled only in recording mode.
    pub log: Vec<String>,
    /// Whether lines are recorded rather than printed.
    pub to_log: bool,
    /// Every line ever written, in order.
    pub lines: Ghost<Seq<Seq<char>>>,
}

impl Writer {
    /// In recording mode the log holds exactly the line history that
    /// accumulated since construction.
    pub open spec fn wf(&self) -> bool {
        self.to_log ==> self.log.deep_view() == self.lines@
    }

    /// A sink that records into `log` when one is given, else prints.
    pub fn new(log: Option<Vec<String>>) -> (r: Writer)
        ensures
            r.wf(),
            match log {
                Some(v) => r.to_log && r.lines@ == v.deep_view(),
                None => !r.to_log && r.lines@ == Seq::<Seq<char>>::empty(),
            },
    {
        match log {
            Some(v) => Writer { lines: Ghost(v.deep_view()), log: v, to_log: true },
            None => Writer { log: Vec::new(), to_log: false, lines: Ghost(Seq::empty()) },
        }
    }

    /// Writes one line.
    pub fn write(&mut self, val: String)
        requires
            old(self).wf(),
        ensures
            final(self).wf(),
            final(self).to_log == old(self).to_log,
            final(self).lines@ == old(self).lines@.push(val@),
    {
        if self.to_log {
            self.write_log(val);
        } else {
            self.write_stdout(val);
        }
    }

    /// Records one line.
    fn write_log(&mut self, val: String)
        requires
            old(self).wf(),
            old(self).to_log,
        ensures
            final(self).wf(),
            final(self).to_log == old(self).to_log,
            final(self).lines@ == old(self).lines@.push(val@),
    {
        proof {
            assert(self.log.deep_view().push(val@) =~= self.log.deep_view().push(val@));
        }
        let ghost lines0 = self.lines@;
        self.log.push(val);
        self.lines = Ghost(lines0.push(val@));
        proof {
            assert(self.log.deep_view() =~= self.lines@);
        }
    }

    /// Relies on `writeln!` to `std::io::Stdout`: prints one line to
    /// standard output; errors are ignored, as a print is fire-and-forget.
    #[verifier::external_body]
    fn print_line(&self, val: &String) {
        let _ = writeln!(std::io::stdout(), "{}", val);
    }

    /// Prints one line.
    fn write_stdout(&mut self, val: String)
        requires
            old(self).wf(),
            !old(self).to_log,
        ensures
            final(self).wf(),
            final(self).to_log == old(self).to_log,
            final(self).lines@ == old(self).lines@.push(val@),
    {
        self.print_line(&val);
        let ghost lines0 = self.lines@;
        self.lines = Ghost(lines0.push(val@));
    }
}

} // verus!
