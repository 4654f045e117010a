//! Events of a running download: log lines from both output streams,
//! progress percentages read from the tool's standard output, and the
//! single terminal outcome.
use vstd::prelude::*;
use vstd::string::*;
use crate::quality::opt_text;

verus! {

#[verifier::external_type_specification]
#[verifier::external_body]
pub struct ExRegexError(regex::Error);

/// The first match of regular expression `pattern` in `line`, as the text of
/// capture group `group`: `None` when the pattern does not compile,
/// `Some(None)` when it does not match or the group took no part.
pub uninterp spec fn regex_capture(pattern: Seq<char>, line: Seq<char>, group: nat) -> Option<
    Option<Seq<char>>,
>;

/// Relies on `regex::Regex::new` to compile `pattern`, and on
/// `Regex::captures` with `Captures::get` for the text of group `group` in
/// the leftmost-first match in `line`.
#[verifier::external_body]
fn first_capture(pattern: &str, line: &str, group: usize) -> (r: Result<
    Option<String>,
    regex::Error,
>)
    ensures
        match r {
            Ok(c) => regex_capture(pattern@, line@, group as nat) == Some(
                match c {
                    Some(t) => Some(t@),
                    None => None::<Seq<char>>,
                },
            ),
            Err(_) => regex_capture(pattern@, line@, group as nat) is None,
        },
{
    let re = regex::Regex::new(pattern)?;
    Ok(re.captures(line).and_then(|c| c.get(group)).map(|m| m.as_str().to_string()))
}

/// Relies on `Display` for `regex::Error`: the compiler's description.
#[verifier::external_body]
fn regex_error_text(e: &regex::Error) -> (r: String) {
    e.to_string()
}

/// A decimal number immediately followed by a percent sign; the number is
/// the first capture group.
pub open spec fn percent_pattern() -> Seq<char> {
    "(\\d+\\.?\\d*)%"@
}

/// Which output stream of the tool a log line came from.
#[derive(Clone, Copy, Debug, PartialEq, Eq, Structural)]
pub enum StreamKind {
    Stdout,
    Stderr,
}

/// One event of a running download.
#[derive(Clone, Debug)]
pub enum DownloadEvent {
    /// A line the tool wrote, as it was written.
    Log { stream: StreamKind, text: String },
    /// A completion percentage, as the decimal text the tool printed
    /// (digits, with at most one `.`).
    Progress { percent: String },
}

pub enum EventView {
    Log { stream: StreamKind, text: Seq<char> },
    Progress { percent: Seq<char> },
}

impl View for DownloadEvent {
    type V = EventView;

    open spec fn view(&self) -> EventView {
        match self {
            DownloadEvent::Log { stream, text } => EventView::Log { stream: *stream, text: text@ },
            DownloadEvent::Progress { percent } => EventView::Progress { percent: percent@ },
        }
    }
}

pub open spec fn event_views(v: Seq<DownloadEvent>) -> Seq<EventView> {
    v.map_values(|e: DownloadEvent| e@)
}

/// How a download ended; produced once, after all output was read.
#[derive(Clone, Debug)]
pub enum DownloadOutcome {
    Success,
    Failure { message: String },
}

/// Why a download could not be run to its end.
#[derive(Clone, Debug)]
pub enum DownloadError {
    /// The tool's executable is not where it is expected: `checked_path`
    /// is where it was looked for, `current_dir` the directory that path is
    /// relative to, each as the caller describes it.
    ToolNotFound { current_dir: String, checked_path: String },
    /// The operating system could not start the tool.
    SpawnFailed { message: String },
    /// The progress pattern did not compile.
    PatternRejected { message: String },
    /// Waiting for the tool to exit failed.
    WaitFailed { message: String },
}

impl DownloadError {
    /// The text shown to the user for this error.
    pub fn message(&self) -> (r: String)
        ensures
            r@ == match self {
                DownloadError::ToolNotFound { current_dir, checked_path } =>
                    "yt-dlp.exe not found in bin directory. Current dir: "@ + current_dir@
                    + ", Checked path: "@ + checked_path@,
                DownloadError::SpawnFailed { message } => "Failed to spawn yt-dlp: "@ + message@,
                DownloadError::PatternRejected { message } => message@,
                DownloadError::WaitFailed { message } => "Failed to wait on child: "@ + message@,
            },
    {
        match self {
            DownloadError::ToolNotFound { current_dir, checked_path } => String::from_str(
                "yt-dlp.exe not found in bin directory. Current dir: ",
            ).concat(current_dir.as_str()).concat(", Checked path: ").concat(
                checked_path.as_str(),
            ),
            DownloadError::SpawnFailed { message } => String::from_str(
                "Failed to spawn yt-dlp: ",
            ).concat(message.as_str()),
            DownloadError::PatternRejected { message } => message.clone(),
            DownloadError::WaitFailed { message } => String::from_str(
                "Failed to wait on child: ",
            ).concat(message.as_str()),
        }
    }
}

/// The number that the percent pattern captures in `line`, if it matches.
pub fn percent_in_line(line: &String) -> (r: Result<Option<String>, DownloadError>)
    ensures
        match r {
            Ok(c) => regex_capture(percent_pattern(), line@, 1) == Some(
                match c {
                    Some(t) => Some(t@),
                    None => None::<Seq<char>>,
                },
            ),
            Err(e) => regex_capture(percent_pattern(), line@, 1) is None
                && e is PatternRejected,
        },
{
    match first_capture("(\\d+\\.?\\d*)%", line.as_str(), 1) {
        Ok(c) => Ok(c),
        Err(e) => Err(DownloadError::PatternRejected { message: regex_error_text(&e) }),
    }
}

pub open spec fn is_ascii_digit(c: char) -> bool {
    '0' <= c && c <= '9'
}

/// Text of the form digits, an optional `.`, then optional digits, in ASCII.
pub open spec fn is_decimal_number(t: Seq<char>) -> bool {
    &&& t.len() > 0
    &&& is_ascii_digit(t[0])
    &&& forall|i: int| 0 <= i < t.len() ==> is_ascii_digit(#[trigger] t[i]) || t[i] == '.'
    &&& forall|i: int, j: int| 0 <= i < j < t.len() && #[trigger] t[i] == '.' ==> #[trigger] t[j] != '.'
}

/// Whether `t` is a decimal number in ASCII digits.
pub fn decimal_number(t: &String) -> (r: bool)
    ensures
        r == is_decimal_number(t@),
{
    let s = t.as_str();
    let n = s.unicode_len();
    if n == 0 || !('0' <= s.get_char(0) && s.get_char(0) <= '9') {
        return false;
    }
    let mut dot: Option<usize> = None;
    let mut i: usize = 0;
    while i < n
        invariant
            n == t@.len(),
            s@ == t@,
            i <= n,
            forall|k: int| 0 <= k < i ==> is_ascii_digit(#[trigger] t@[k]) || t@[k] == '.',
            match dot {
                Some(d) => d < i && t@[d as int] == '.' && forall|k: int|
                    0 <= k < i && k != d ==> #[trigger] t@[k] != '.',
                None => forall|k: int| 0 <= k < i ==> #[trigger] t@[k] != '.',
            },
        decreases n - i,
    {
        let c = s.get_char(i);
        if c == '.' {
            if dot.is_some() {
                assert(t@[dot->0 as int] == '.' && t@[i as int] == '.');
                return false;
            }
            dot = Some(i);
        } else if !('0' <= c && c <= '9') {
            return false;
        }
        i = i + 1;
    }
    true
}

/// The log event for a line of the tool's error output.
pub open spec fn stderr_events(line: Seq<char>) -> Seq<EventView> {
    seq![EventView::Log { stream: StreamKind::Stderr, text: line }]
}

/// The events for a line of the tool's standard output, given what the
/// percent pattern captured in it: the log event, then a progress event when
/// a decimal number was captured.
pub open spec fn stdout_events(line: Seq<char>, capture: Option<Seq<char>>) -> Seq<EventView> {
    let log = seq![EventView::Log { stream: StreamKind::Stdout, text: line }];
    match capture {
        Some(p) => if is_decimal_number(p) {
            log.push(EventView::Progress { percent: p })
        } else {
            log
        },
        None => log,
    }
}

/// The log event for a line of the tool's error output.
pub fn stderr_line_event(line: String) -> (r: DownloadEvent)
    ensures
        seq![r@] == stderr_events(line@),
{
    DownloadEvent::Log { stream: StreamKind::Stderr, text: line }
}

/// The events for a line of the tool's standard output; `capture` is what
/// the percent pattern captured in it.
pub fn stdout_line_events(line: String, capture: Option<String>) -> (r: Vec<DownloadEvent>)
    ensures
        event_views(r@) == stdout_events(line@, opt_text(capture)),
{
    let mut events: Vec<DownloadEvent> = Vec::new();
    events.push(DownloadEvent::Log { stream: StreamKind::Stdout, text: line });
    match capture {
        Some(p) => {
            if decimal_number(&p) {
                events.push(DownloadEvent::Progress { percent: p });
            }
        },
        None => {},
    }
    assert(event_views(events@) =~= stdout_events(line@, opt_text(capture)));
    events
}

/// The failure message for an exit status that `status` describes.
pub open spec fn exit_outcome_message(status: Seq<char>) -> Seq<char> {
    "Download failed with status: "@ + status
}

/// The outcome of a download whose tool exited with `success`, its status
/// described by `status`.
pub fn outcome_of_exit(success: bool, status: &String) -> (r: DownloadOutcome)
    ensures
        success ==> r is Success,
        !success ==> r is Failure && r->message@ == exit_outcome_message(status@),
{
    if success {
        DownloadOutcome::Success
    } else {
        DownloadOutcome::Failure {
            message: String::from_str("Download failed with status: ").concat(status.as_str()),
        }
    }
}

} // verus!
