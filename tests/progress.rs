use media_fetch::progress::{
    decimal_number, outcome_of_exit, percent_in_line, stderr_line_event, stdout_line_events,
    DownloadError, DownloadEvent, DownloadOutcome, StreamKind,
};
use media_fetch::session::DownloadSession;

fn progress_values(events: &[DownloadEvent]) -> Vec<f64> {
    events
        .iter()
        .filter_map(|e| match e {
            DownloadEvent::Progress { percent } => Some(percent.parse::<f64>().unwrap()),
            _ => None,
        })
        .collect()
}

fn line_events(line: &str) -> Vec<DownloadEvent> {
    let capture = percent_in_line(&line.to_string()).unwrap();
    stdout_line_events(line.to_string(), capture)
}

#[test]
fn percent_is_found_in_line() {
    assert_eq!(
        percent_in_line(&"[download]  42.5% of 10MiB".to_string()).unwrap(),
        Some("42.5".to_string())
    );
    assert_eq!(percent_in_line(&"[download] 100% done".to_string()).unwrap(), Some("100".to_string()));
    assert_eq!(percent_in_line(&"no progress here".to_string()).unwrap(), None);
}

#[test]
fn matching_line_gives_log_and_one_progress() {
    let e = line_events("[download]  42.5% of 3.00MiB at 1.00MiB/s");
    assert_eq!(e.len(), 2);
    match &e[0] {
        DownloadEvent::Log { stream, text } => {
            assert_eq!(*stream, StreamKind::Stdout);
            assert_eq!(text, "[download]  42.5% of 3.00MiB at 1.00MiB/s");
        }
        _ => panic!("expected a log event"),
    }
    assert_eq!(progress_values(&e), vec![42.5]);
}

#[test]
fn plain_line_gives_only_log() {
    let e = line_events("[info] Downloading webpage");
    assert_eq!(e.len(), 1);
    assert!(progress_values(&e).is_empty());
}

#[test]
fn capture_that_is_not_ascii_decimal_gives_no_progress() {
    let e = stdout_line_events("x".to_string(), Some("\u{0664}\u{0662}".to_string()));
    assert_eq!(e.len(), 1);
    let e = stdout_line_events("x".to_string(), Some("4.2.1".to_string()));
    assert_eq!(e.len(), 1);
}

#[test]
fn decimal_number_forms() {
    assert!(decimal_number(&"42".to_string()));
    assert!(decimal_number(&"42.5".to_string()));
    assert!(decimal_number(&"42.".to_string()));
    assert!(!decimal_number(&".5".to_string()));
    assert!(!decimal_number(&"".to_string()));
    assert!(!decimal_number(&"1.2.3".to_string()));
    assert!(!decimal_number(&"4a".to_string()));
}

#[test]
fn stderr_line_is_logged() {
    match stderr_line_event("warn".to_string()) {
        DownloadEvent::Log { stream, text } => {
            assert_eq!(stream, StreamKind::Stderr);
            assert_eq!(text, "warn");
        }
        _ => panic!("expected a log event"),
    }
}

#[test]
fn exit_status_gives_outcome() {
    assert!(matches!(outcome_of_exit(true, &"exit status: 0".to_string()), DownloadOutcome::Success));
    match outcome_of_exit(false, &"exit status: 1".to_string()) {
        DownloadOutcome::Failure { message } => {
            assert_eq!(message, "Download failed with status: exit status: 1")
        }
        _ => panic!("expected failure"),
    }
}

#[test]
fn download_error_messages() {
    let missing = DownloadError::ToolNotFound {
        current_dir: "Ok(\"/home/u/app\")".to_string(),
        checked_path: "\"bin/yt-dlp.exe\"".to_string(),
    };
    assert_eq!(
        missing.message(),
        "yt-dlp.exe not found in bin directory. Current dir: Ok(\"/home/u/app\"), Checked path: \"bin/yt-dlp.exe\""
    );
    assert_eq!(
        DownloadError::SpawnFailed { message: "denied".to_string() }.message(),
        "Failed to spawn yt-dlp: denied"
    );
    assert_eq!(
        DownloadError::WaitFailed { message: "gone".to_string() }.message(),
        "Failed to wait on child: gone"
    );
}

#[test]
fn stderr_lines_need_no_stdout() {
    let mut s = DownloadSession::new();
    for i in 0..1000 {
        s.on_stderr_line(format!("warning {}", i));
    }
    assert_eq!(s.events().len(), 1000);
    for (i, e) in s.events().iter().enumerate() {
        match e {
            DownloadEvent::Log { stream, text } => {
                assert_eq!(*stream, StreamKind::Stderr);
                assert_eq!(*text, format!("warning {}", i));
            }
            _ => panic!("expected a stderr log"),
        }
    }
    assert!(s.outcome().is_none());
}

#[test]
fn successful_download_scenario() {
    let mut s = DownloadSession::new();
    for line in [
        "[download] 10.0% of 5MiB",
        "[download] 55.3% of 5MiB",
        "[download] 100% of 5MiB",
    ] {
        s.on_stdout_line(line.to_string()).unwrap();
    }
    s.on_exit(true, &"exit status: 0".to_string());
    let e = s.events();
    assert_eq!(e.len(), 6);
    let logs = e.iter().filter(|x| matches!(x, DownloadEvent::Log { .. })).count();
    assert_eq!(logs, 3);
    assert_eq!(progress_values(e), vec![10.0, 55.3, 100.0]);
    assert!(matches!(s.outcome(), Some(DownloadOutcome::Success)));
}

#[test]
fn failed_download_scenario() {
    let mut s = DownloadSession::new();
    s.on_stderr_line("ERROR: Unsupported URL: https://example.com".to_string());
    s.on_exit(false, &"exit status: 1".to_string());
    s.on_stderr_line("late line".to_string());
    s.on_stdout_line("[download] 50.0%".to_string()).unwrap();
    s.on_exit(true, &"exit status: 0".to_string());
    assert_eq!(s.events().len(), 1);
    match &s.events()[0] {
        DownloadEvent::Log { stream, text } => {
            assert_eq!(*stream, StreamKind::Stderr);
            assert!(text.contains("Unsupported URL"));
        }
        _ => panic!("expected a stderr log"),
    }
    match s.outcome() {
        Some(DownloadOutcome::Failure { message }) => assert!(message.contains("exit status: 1")),
        _ => panic!("expected failure"),
    }
}

#[test]
fn recorded_capture_is_used_as_given() {
    let mut s = DownloadSession::new();
    s.record_stdout("step".to_string(), Some("7".to_string()));
    s.record_stdout("step".to_string(), None);
    assert_eq!(s.events().len(), 3);
    assert_eq!(progress_values(s.events()), vec![7.0]);
}
