//! The argument list handed to the download tool for one download.
use vstd::prelude::*;
use vstd::string::*;
use crate::quality::{opt_text, texts};

verus! {

/// What the caller wants to keep from the media when no explicit format id
/// is chosen.
#[derive(Clone, Copy, Debug, PartialEq, Eq, Structural)]
pub enum FormatKind {
    VideoAudio,
    VideoOnly,
    AudioOnly,
}

/// The accepted spellings of each format kind.
pub open spec fn format_kind_of(name: Seq<char>) -> Option<FormatKind> {
    if name == "video_audio"@ || name == "video+audio"@ {
        Some(FormatKind::VideoAudio)
    } else if name == "video_only"@ || name == "video"@ {
        Some(FormatKind::VideoOnly)
    } else if name == "audio_only"@ || name == "audio"@ {
        Some(FormatKind::AudioOnly)
    } else {
        None
    }
}

pub open spec fn best_text() -> Seq<char> {
    "best"@
}

pub open spec fn worst_text() -> Seq<char> {
    "worst"@
}

/// A quality selector other than the two sentinels names a format directly.
pub open spec fn is_explicit_selector(quality: Seq<char>) -> bool {
    quality != best_text() && quality != worst_text()
}

/// The flags that choose what is downloaded.
pub open spec fn selection_args(format: Seq<char>, quality: Seq<char>) -> Seq<Seq<char>> {
    if is_explicit_selector(quality) {
        seq!["-f"@, quality]
    } else {
        let best = quality == best_text();
        match format_kind_of(format) {
            Some(FormatKind::VideoAudio) => if best {
                seq!["-f"@, "bv+ba/b"@]
            } else {
                seq!["-f"@, "wv+wa/w"@]
            },
            Some(FormatKind::VideoOnly) => if best {
                seq!["-f"@, "bv"@]
            } else {
                seq!["-f"@, "wv"@]
            },
            Some(FormatKind::AudioOnly) => if best {
                seq!["-x"@, "--audio-quality"@, "0"@]
            } else {
                seq!["-x"@, "--audio-quality"@, "10"@]
            },
            None => seq!["-f"@, "bv+ba/b"@],
        }
    }
}

/// The destination flag, present only when a directory is given.
pub open spec fn destination_args(destination: Option<Seq<char>>) -> Seq<Seq<char>> {
    match destination {
        Some(dir) => seq!["-P"@, dir],
        None => seq![],
    }
}

/// The whole argument list for downloading `url`.
pub open spec fn download_args(
    url: Seq<char>,
    format: Seq<char>,
    quality: Seq<char>,
    destination: Option<Seq<char>>,
) -> Seq<Seq<char>> {
    seq![url, "--newline"@, "--progress"@] + destination_args(destination) + seq![
        "-o"@,
        "%(title)s.%(ext)s"@,
    ] + selection_args(format, quality)
}

impl FormatKind {
    /// Reads a format kind from either of its spellings.
    pub fn from_name(name: &String) -> (r: Option<FormatKind>)
        ensures
            r == format_kind_of(name@),
    {
        if *name == String::from_str("video_audio") || *name == String::from_str("video+audio") {
            Some(FormatKind::VideoAudio)
        } else if *name == String::from_str("video_only") || *name == String::from_str("video") {
            Some(FormatKind::VideoOnly)
        } else if *name == String::from_str("audio_only") || *name == String::from_str("audio") {
            Some(FormatKind::AudioOnly)
        } else {
            None
        }
    }
}

fn push_text(v: &mut Vec<String>, s: &str)
    ensures
        texts(final(v)@) == texts(old(v)@).push(s@),
{
    let ghost before = texts(v@);
    v.push(String::from_str(s));
    assert(texts(v@) =~= before.push(s@));
}

/// Builds the download tool's arguments for one download.
pub fn build_download_args(
    url: &String,
    format: &String,
    quality: &String,
    destination: &Option<String>,
) -> (r: Vec<String>)
    ensures
        texts(r@) == download_args(url@, format@, quality@, opt_text(*destination)),
{
    let mut args: Vec<String> = Vec::new();
    push_text(&mut args, url.as_str());
    push_text(&mut args, "--newline");
    push_text(&mut args, "--progress");
    let ghost head = texts(args@);
    match destination {
        Some(dir) => {
            push_text(&mut args, "-P");
            push_text(&mut args, dir.as_str());
        },
        None => {},
    }
    assert(texts(args@) =~= head + destination_args(opt_text(*destination)));
    push_text(&mut args, "-o");
    push_text(&mut args, "%(title)s.%(ext)s");
    let ghost prefix = texts(args@);
    let best = *quality == String::from_str("best");
    let worst = *quality == String::from_str("worst");
    if !best && !worst {
        push_text(&mut args, "-f");
        push_text(&mut args, quality.as_str());
    } else {
        match FormatKind::from_name(format) {
            Some(FormatKind::VideoAudio) => {
                push_text(&mut args, "-f");
                push_text(&mut args, if best { "bv+ba/b" } else { "wv+wa/w" });
            },
            Some(FormatKind::VideoOnly) => {
                push_text(&mut args, "-f");
                push_text(&mut args, if best { "bv" } else { "wv" });
            },
            Some(FormatKind::AudioOnly) => {
                push_text(&mut args, "-x");
                push_text(&mut args, "--audio-quality");
                push_text(&mut args, if best { "0" } else { "10" });
            },
            None => {
                push_text(&mut args, "-f");
                push_text(&mut args, "bv+ba/b");
            },
        }
    }
    assert(texts(args@) =~= prefix + selection_args(format@, quality@));
    assert(texts(args@) =~= download_args(url@, format@, quality@, opt_text(*destination)));
    args
}

/// The argument list depends on the url, format kind, quality selector and
/// destination alone: two lists built from the same inputs are equal.
pub proof fn lemma_args_are_a_function_of_inputs(
    url: Seq<char>,
    format: Seq<char>,
    quality: Seq<char>,
    destination: Option<Seq<char>>,
    first: Seq<Seq<char>>,
    second: Seq<Seq<char>>,
)
    requires
        first == download_args(url, format, quality, destination),
        second == download_args(url, format, quality, destination),
    ensures
        first == second,
{
}

/// An explicit format id is passed on as the value of `-f`, as the last
/// argument, and the format kind then plays no part in the list.
pub proof fn lemma_explicit_selector_bypasses_kind(
    url: Seq<char>,
    format: Seq<char>,
    other_format: Seq<char>,
    quality: Seq<char>,
    destination: Option<Seq<char>>,
)
    requires
        is_explicit_selector(quality),
    ensures
        download_args(url, format, quality, destination) == download_args(
            url,
            other_format,
            quality,
            destination,
        ),
        ({
            let a = download_args(url, format, quality, destination);
            a.len() >= 2 && a[a.len() - 2] == "-f"@ && a[a.len() - 1] == quality
        }),
{
}

} // verus!
