//! The record of one download: every event in the order it was produced,
//! and the terminal outcome, after which nothing more is recorded.
use vstd::prelude::*;
use crate::quality::opt_text;
use crate::progress::{
    event_views, outcome_of_exit, percent_in_line, regex_capture, percent_pattern,
    stderr_events, stderr_line_event, stdout_events, stdout_line_events, exit_outcome_message,
    DownloadError, DownloadEvent, DownloadOutcome, EventView, StreamKind,
};

verus! {

pub enum OutcomeView {
    Success,
    Failure { message: Seq<char> },
}

pub open spec fn outcome_view(o: DownloadOutcome) -> OutcomeView {
    match o {
        DownloadOutcome::Success => OutcomeView::Success,
        DownloadOutcome::Failure { message } => OutcomeView::Failure { message: message@ },
    }
}

pub struct SessionView {
    pub events: Seq<EventView>,
    pub outcome: Option<OutcomeView>,
}

/// One download as it runs: lines from either stream are recorded as they
/// arrive, independently of each other, until the tool's exit is reported.
pub struct DownloadSession {
    events: Vec<DownloadEvent>,
    outcome: Option<DownloadOutcome>,
}

impl View for DownloadSession {
    type V = SessionView;

    closed spec fn view(&self) -> SessionView {
        SessionView {
            events: event_views(self.events@),
            outcome: match self.outcome {
                Some(o) => Some(outcome_view(o)),
                None => None,
            },
        }
    }
}

/// A line of standard output, with what the percent pattern captured in it.
pub open spec fn stdout_step(s: SessionView, line: Seq<char>, capture: Option<Seq<char>>) -> SessionView {
    if s.outcome is None {
        SessionView { events: s.events + stdout_events(line, capture), outcome: s.outcome }
    } else {
        s
    }
}

/// A line of error output.
pub open spec fn stderr_step(s: SessionView, line: Seq<char>) -> SessionView {
    if s.outcome is None {
        SessionView { events: s.events + stderr_events(line), outcome: s.outcome }
    } else {
        s
    }
}

pub open spec fn exit_outcome(success: bool, status: Seq<char>) -> OutcomeView {
    if success {
        OutcomeView::Success
    } else {
        OutcomeView::Failure { message: exit_outcome_message(status) }
    }
}

/// The tool's exit, reported after its output was read.
pub open spec fn exit_step(s: SessionView, success: bool, status: Seq<char>) -> SessionView {
    if s.outcome is None {
        SessionView { events: s.events, outcome: Some(exit_outcome(success, status)) }
    } else {
        s
    }
}

/// A run of error-output lines with no standard output between them.
pub open spec fn stderr_run(s: SessionView, lines: Seq<Seq<char>>) -> SessionView
    decreases lines.len(),
{
    if lines.len() == 0 {
        s
    } else {
        stderr_step(stderr_run(s, lines.drop_last()), lines.last())
    }
}

pub open spec fn stderr_logs(lines: Seq<Seq<char>>) -> Seq<EventView> {
    lines.map_values(|l: Seq<char>| EventView::Log { stream: StreamKind::Stderr, text: l })
}

/// Error output is recorded without waiting on standard output: on a
/// running download, any run of error-output lines yields one stderr log
/// event per line, in order, and nothing else.
pub proof fn lemma_stderr_needs_no_stdout(s: SessionView, lines: Seq<Seq<char>>)
    requires
        s.outcome is None,
    ensures
        stderr_run(s, lines).events == s.events + stderr_logs(lines),
        stderr_run(s, lines).outcome is None,
    decreases lines.len(),
{
    if lines.len() == 0 {
        assert(s.events + stderr_logs(lines) =~= s.events);
    } else {
        lemma_stderr_needs_no_stdout(s, lines.drop_last());
        assert(stderr_logs(lines) =~= stderr_logs(lines.drop_last()) + stderr_events(lines.last()));
        assert(s.events + stderr_logs(lines) =~= s.events + stderr_logs(lines.drop_last())
            + stderr_events(lines.last()));
    }
}

/// The outcome is the last thing recorded and is recorded once: after it,
/// lines from either stream and a second exit change nothing.
pub proof fn lemma_outcome_is_last(
    s: SessionView,
    success: bool,
    status: Seq<char>,
    line: Seq<char>,
    capture: Option<Seq<char>>,
    again: bool,
    other_status: Seq<char>,
)
    requires
        s.outcome is None,
    ensures
        ({
            let done = exit_step(s, success, status);
            &&& done.events == s.events
            &&& done.outcome == Some(exit_outcome(success, status))
            &&& stdout_step(done, line, capture) == done
            &&& stderr_step(done, line) == done
            &&& exit_step(done, again, other_status) == done
        }),
{
}

impl DownloadSession {
    /// A download with nothing recorded yet.
    pub fn new() -> (r: DownloadSession)
        ensures
            r@.events == Seq::<EventView>::empty(),
            r@.outcome is None,
    {
        let r = DownloadSession { events: Vec::new(), outcome: None };
        assert(r@.events =~= Seq::<EventView>::empty());
        r
    }

    /// Everything recorded so far, in order.
    pub fn events(&self) -> (r: &Vec<DownloadEvent>)
        ensures
            event_views(r@) == self@.events,
    {
        &self.events
    }

    /// The outcome, once the tool's exit has been reported.
    pub fn outcome(&self) -> (r: &Option<DownloadOutcome>)
        ensures
            match r {
                Some(o) => self@.outcome == Some(outcome_view(*o)),
                None => self@.outcome is None,
            },
    {
        &self.outcome
    }

    fn append(&mut self, more: Vec<DownloadEvent>)
        ensures
            final(self)@.events == old(self)@.events + event_views(more@),
            final(self)@.outcome == old(self)@.outcome,
    {
        let mut more = more;
        let ghost start = self@.events;
        let ghost added = event_views(more@);
        self.events.append(&mut more);
        assert(self@.events =~= start + added);
    }

    /// Records a line of standard output, with what the percent pattern
    /// captured in it.
    pub fn record_stdout(&mut self, line: String, capture: Option<String>)
        ensures
            final(self)@ == stdout_step(old(self)@, line@, opt_text(capture)),
    {
        if self.outcome.is_none() {
            let more = stdout_line_events(line, capture);
            self.append(more);
        }
    }

    /// Records a line of standard output, looking in it for a percentage.
    /// Fails, recording nothing, only when the percent pattern does not
    /// compile.
    pub fn on_stdout_line(&mut self, line: String) -> (r: Result<(), DownloadError>)
        ensures
            match regex_capture(percent_pattern(), line@, 1) {
                Some(c) => r is Ok && final(self)@ == stdout_step(old(self)@, line@, c),
                None => r is Err && final(self)@ == old(self)@,
            },
    {
        match percent_in_line(&line) {
            Ok(c) => {
                self.record_stdout(line, c);
                Ok(())
            },
            Err(e) => Err(e),
        }
    }

    /// Records a line of error output.
    pub fn on_stderr_line(&mut self, line: String)
        ensures
            final(self)@ == stderr_step(old(self)@, line@),
    {
        if self.outcome.is_none() {
            let mut more: Vec<DownloadEvent> = Vec::new();
            more.push(stderr_line_event(line));
            assert(event_views(more@) =~= stderr_events(line@));
            self.append(more);
        }
    }

    /// Records the tool's exit; `status` describes the exit status.
    pub fn on_exit(&mut self, success: bool, status: &String)
        ensures
            final(self)@ == exit_step(old(self)@, success, status@),
    {
        if self.outcome.is_none() {
            self.outcome = Some(outcome_of_exit(success, status));
        }
    }
}

} // verus!
