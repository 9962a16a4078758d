use vstd::prelude::*;

use crate::instrument::{instruments, Instrument};
use crate::quote::{FetchError, Price};

verus! {

/// Seconds of pause between two rounds.
pub const POLL_INTERVAL_SECS: u64 = 10;

/// What the poll loop asks its driver to do next.
#[derive(Clone, Copy, Debug, PartialEq, Eq, Structural)]
pub enum Command {
    /// Fetch the instrument's quote and hand the outcome to `Poller::on_fetched`.
    Fetch(Instrument),
    /// Pause this many seconds, then ask `Poller::command` again.
    Sleep(u64),
}

/// One line of output of the poll loop.
#[derive(Clone, Debug)]
pub enum Report {
    /// A fetched price, for the standard output.
    Price(Instrument, Price),
    /// A failed fetch, for the standard error.
    Failure(Instrument, FetchError),
    /// The blank line that closes a round, for the standard output.
    Separator,
}

/// The report for one fetch outcome of an instrument.
pub open spec fn report_of(i: Instrument, outcome: Result<Price, FetchError>) -> Report {
    match outcome {
        Ok(p) => Report::Price(i, p),
        Err(e) => Report::Failure(i, e),
    }
}

/// What an outcome at a position of the round leads to: the lines to report,
/// the next command, and the next position.
pub open spec fn step(pos: nat, outcome: Result<Price, FetchError>) -> (Seq<Report>, Command, nat) {
    let report = report_of(instruments()[pos as int], outcome);
    if pos + 1 < instruments().len() {
        (seq![report], Command::Fetch(instruments()[pos + 1 as int]), (pos + 1) as nat)
    } else {
        (seq![report, Report::Separator], Command::Sleep(POLL_INTERVAL_SECS), 0)
    }
}

impl Report {
    /// Whether the line goes to the standard error.
    pub fn to_stderr(&self) -> (r: bool)
        ensures
            r == (*self is Failure),
    {
        match self {
            Report::Failure(_, _) => true,
            _ => false,
        }
    }
}

/// The poll loop's position within a round: the instrument fetched next.
pub struct Poller {
    next: usize,
}

impl Poller {
    /// Index, in polling order, of the instrument fetched next.
    pub closed spec fn position(&self) -> nat {
        self.next as nat
    }

    pub open spec fn wf(&self) -> bool {
        self.position() < instruments().len()
    }

    /// A loop at the start of its first round.
    pub fn new() -> (p: Poller)
        ensures
            p.wf(),
            p.position() == 0,
    {
        Poller { next: 0 }
    }

    /// The fetch that the loop is waiting for.
    pub fn command(&self) -> (c: Command)
        requires
            self.wf(),
        ensures
            c == Command::Fetch(instruments()[self.position() as int]),
    {
        let all = Instrument::all();
        Command::Fetch(all[self.next])
    }

    /// Takes the outcome of the pending fetch. Returns the lines to report and
    /// what to do next: fetch the following instrument, or, after the last
    /// one, close the round with a blank line and pause.
    pub fn on_fetched(&mut self, outcome: Result<Price, FetchError>) -> (r: (Vec<Report>, Command))
        requires
            old(self).wf(),
        ensures
            final(self).wf(),
            (r.0@, r.1, final(self).position()) == step(old(self).position(), outcome),
    {
        let all = Instrument::all();
        let inst = all[self.next];
        let report = match outcome {
            Ok(p) => Report::Price(inst, p),
            Err(e) => Report::Failure(inst, e),
        };
        let mut reports: Vec<Report> = Vec::new();
        reports.push(report);
        if self.next + 1 < all.len() {
            self.next = self.next + 1;
            let r = (reports, Command::Fetch(all[self.next]));
            assert(r.0@ =~= seq![report_of(instruments()[old(self).position() as int], outcome)]);
            r
        } else {
            reports.push(Report::Separator);
            self.next = 0;
            let r = (reports, Command::Sleep(POLL_INTERVAL_SECS));
            assert(r.0@ =~= seq![report_of(instruments()[old(self).position() as int], outcome), Report::Separator]);
            r
        }
    }
}

/// A failed fetch does not stop the loop: whatever the outcome, the loop
/// goes on to the same command and position.
pub proof fn lemma_outcome_does_not_steer(pos: nat, a: Result<Price, FetchError>, b: Result<Price, FetchError>)
    requires
        pos < instruments().len(),
    ensures
        step(pos, a).1 == step(pos, b).1,
        step(pos, a).2 == step(pos, b).2,
{
}

/// A round that starts at the first instrument reports each outcome in
/// polling order, closes with one blank line, then pauses for the poll
/// interval and returns to the first instrument.
pub proof fn lemma_full_round(outcomes: Seq<Result<Price, FetchError>>)
    requires
        outcomes.len() == instruments().len(),
    ensures
        ({
            let s0 = step(0, outcomes[0]);
            let s1 = step(s0.2, outcomes[1]);
            let s2 = step(s1.2, outcomes[2]);
            &&& s0.1 == Command::Fetch(instruments()[1])
            &&& s1.1 == Command::Fetch(instruments()[2])
            &&& s2.1 == Command::Sleep(POLL_INTERVAL_SECS)
            &&& s2.2 == 0
            &&& s0.0 + s1.0 + s2.0 == seq![
                report_of(instruments()[0], outcomes[0]),
                report_of(instruments()[1], outcomes[1]),
                report_of(instruments()[2], outcomes[2]),
                Report::Separator,
            ]
        }),
{
    let s0 = step(0, outcomes[0]);
    let s1 = step(s0.2, outcomes[1]);
    let s2 = step(s1.2, outcomes[2]);
    assert(s0.0 + s1.0 + s2.0 =~= seq![
        report_of(instruments()[0], outcomes[0]),
        report_of(instruments()[1], outcomes[1]),
        report_of(instruments()[2], outcomes[2]),
        Report::Separator,
    ]);
}

} // verus!
