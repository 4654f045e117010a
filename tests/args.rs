use media_fetch::args::{build_download_args, FormatKind};

fn s(t: &str) -> String {
    t.to_string()
}

fn build(format: &str, quality: &str, dest: Option<&str>) -> Vec<String> {
    build_download_args(&s("https://example.com/v"), &s(format), &s(quality), &dest.map(s))
}

fn expect(tail: &[&str], dest: Option<&str>) -> Vec<String> {
    let mut v = vec![s("https://example.com/v"), s("--newline"), s("--progress")];
    if let Some(d) = dest {
        v.push(s("-P"));
        v.push(s(d));
    }
    v.push(s("-o"));
    v.push(s("%(title)s.%(ext)s"));
    v.extend(tail.iter().map(|t| s(t)));
    v
}

#[test]
fn video_audio_best_selects_best_pair() {
    assert_eq!(build("video_audio", "best", None), expect(&["-f", "bv+ba/b"], None));
    assert_eq!(build("video+audio", "best", None), expect(&["-f", "bv+ba/b"], None));
}

#[test]
fn video_audio_worst_selects_worst_pair() {
    assert_eq!(build("video_audio", "worst", None), expect(&["-f", "wv+wa/w"], None));
    assert_eq!(build("video+audio", "worst", None), expect(&["-f", "wv+wa/w"], None));
}

#[test]
fn video_only_selectors() {
    assert_eq!(build("video_only", "best", None), expect(&["-f", "bv"], None));
    assert_eq!(build("video", "worst", None), expect(&["-f", "wv"], None));
}

#[test]
fn audio_only_extracts_audio() {
    assert_eq!(
        build("audio_only", "best", None),
        expect(&["-x", "--audio-quality", "0"], None)
    );
    assert_eq!(build("audio", "worst", None), expect(&["-x", "--audio-quality", "10"], None));
}

#[test]
fn unknown_kind_falls_back_to_best_pair() {
    assert_eq!(build("mystery", "best", None), expect(&["-f", "bv+ba/b"], None));
    assert_eq!(build("mystery", "worst", None), expect(&["-f", "bv+ba/b"], None));
}

#[test]
fn destination_adds_path_flag() {
    assert_eq!(
        build("video", "best", Some("/tmp/out")),
        expect(&["-f", "bv"], Some("/tmp/out"))
    );
}

#[test]
fn explicit_selector_is_passed_through() {
    let a = build("audio_only", "137", Some("d"));
    assert_eq!(a, expect(&["-f", "137"], Some("d")));
    assert_eq!(a, build("video_audio", "137", Some("d")));
    assert!(!a.iter().any(|x| x == "-x" || x == "bv+ba/b"));
}

#[test]
fn same_inputs_give_same_arguments() {
    assert_eq!(build("video", "worst", Some("x")), build("video", "worst", Some("x")));
}

#[test]
fn format_kind_spellings() {
    assert_eq!(FormatKind::from_name(&s("video_audio")), Some(FormatKind::VideoAudio));
    assert_eq!(FormatKind::from_name(&s("video+audio")), Some(FormatKind::VideoAudio));
    assert_eq!(FormatKind::from_name(&s("video_only")), Some(FormatKind::VideoOnly));
    assert_eq!(FormatKind::from_name(&s("video")), Some(FormatKind::VideoOnly));
    assert_eq!(FormatKind::from_name(&s("audio_only")), Some(FormatKind::AudioOnly));
    assert_eq!(FormatKind::from_name(&s("audio")), Some(FormatKind::AudioOnly));
    assert_eq!(FormatKind::from_name(&s("Video")), None);
}
