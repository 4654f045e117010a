use media_fetch::metadata::{options_from_metadata, probe_result, FormatFields, ProbeError};
use media_fetch::quality::{OptionKind, RawFormat};

#[test]
fn document_formats_become_choices() {
    let doc = r#"{"title":"t","formats":[
        {"format_id":"18","ext":"mp4","height":360,"vcodec":"avc1","acodec":"mp4a"},
        {"format_id":"137","height":1080,"vcodec":"avc1","acodec":"none"},
        {"format_id":"22","ext":"webm","height":720,"vcodec":"vp9","acodec":"opus"}
    ]}"#;
    let r = options_from_metadata(&doc.to_string()).unwrap();
    let labels: Vec<&str> = r.iter().map(|o| o.label.as_str()).collect();
    assert_eq!(
        labels,
        vec!["Best Available", "Lowest Available", "720p (webm)", "1080p (video only)", "360p (mp4)"]
    );
    assert_eq!(r[3].id, "137");
    assert_eq!(r[3].kind, OptionKind::VideoOnly);
}

#[test]
fn missing_fields_take_defaults() {
    let doc = r#"{"formats":[{"acodec":"mp4a"}]}"#;
    let r = options_from_metadata(&doc.to_string()).unwrap();
    assert_eq!(r.len(), 3);
    assert_eq!(r[2].id, "");
    assert_eq!(r[2].label, "Audio only (mp4)");
}

#[test]
fn document_without_formats_gives_defaults() {
    let r = options_from_metadata(&r#"{"title":"x"}"#.to_string()).unwrap();
    assert_eq!(r.len(), 2);
    let r = options_from_metadata(&r#"{"formats":[]}"#.to_string()).unwrap();
    assert_eq!(r.len(), 2);
}

#[test]
fn malformed_document_is_rejected() {
    let r = options_from_metadata(&"not json".to_string());
    match r {
        Err(ProbeError::MalformedMetadata { message }) => assert!(!message.is_empty()),
        _ => panic!("expected malformed metadata"),
    }
}

#[test]
fn failed_probe_reports_stderr() {
    let r = probe_result(false, &"{}".to_string(), &"ERROR: bad".to_string());
    match r {
        Err(e) => assert_eq!(e.message(), "Failed to fetch video info: ERROR: bad"),
        _ => panic!("expected failure"),
    }
    assert_eq!(probe_result(true, &"{}".to_string(), &String::new()).unwrap().len(), 2);
}

#[test]
fn probe_error_messages() {
    assert_eq!(ProbeError::ToolNotFound.message(), "yt-dlp.exe not found in bin directory");
    assert_eq!(
        ProbeError::SpawnFailed { message: "denied".to_string() }.message(),
        "Failed to execute yt-dlp: denied"
    );
    assert_eq!(
        ProbeError::MalformedMetadata { message: "eof".to_string() }.message(),
        "Failed to parse JSON: eof"
    );
}

#[test]
fn raw_format_from_fields() {
    let f = FormatFields {
        format_id: Some("251".to_string()),
        ext: None,
        height: Some(480),
        vcodec: None,
        acodec: Some("opus".to_string()),
    };
    let r = RawFormat::from_fields(&f);
    assert_eq!(r.format_id, "251");
    assert_eq!(r.ext, "mp4");
    assert_eq!(r.height, Some(480));
    assert_eq!(r.vcodec, None);
    assert_eq!(r.acodec.as_deref(), Some("opus"));
}
