//! Reading the tool's metadata document and turning it into quality choices.
use vstd::prelude::*;
use vstd::string::*;
use crate::quality::{
    opt_text, option_views, quality_list, quality_options, views_of, QualityOption, RawFormat,
    RawFormatView,
};

verus! {

#[verifier::external_type_specification]
#[verifier::external_body]
pub struct ExJsonError(serde_json::Error);

/// The fields of one entry of the document's `formats` array, each present
/// only when the document holds it with the expected JSON type.
#[derive(Clone, Debug)]
pub struct FormatFields {
    pub format_id: Option<String>,
    pub ext: Option<String>,
    pub height: Option<i64>,
    pub vcodec: Option<String>,
    pub acodec: Option<String>,
}

pub struct FormatFieldsView {
    pub format_id: Option<Seq<char>>,
    pub ext: Option<Seq<char>>,
    pub height: Option<int>,
    pub vcodec: Option<Seq<char>>,
    pub acodec: Option<Seq<char>>,
}

impl View for FormatFields {
    type V = FormatFieldsView;

    open spec fn view(&self) -> FormatFieldsView {
        FormatFieldsView {
            format_id: opt_text(self.format_id),
            ext: opt_text(self.ext),
            height: match self.height {
                Some(h) => Some(h as int),
                None => None,
            },
            vcodec: opt_text(self.vcodec),
            acodec: opt_text(self.acodec),
        }
    }
}

pub open spec fn fields_views(v: Seq<FormatFields>) -> Seq<FormatFieldsView> {
    v.map_values(|f: FormatFields| f@)
}

/// What the metadata document `text` holds: `None` when it is not JSON,
/// `Some(None)` when it has no `formats` array, else the fields of each entry.
pub uninterp spec fn metadata_formats(text: Seq<char>) -> Option<Option<Seq<FormatFieldsView>>>;

/// Relies on `serde_json::from_str` to parse the document, and on indexing a
/// `serde_json::Value` by key with `as_array`, `as_str` and `as_i64` to read
/// the `formats` array and the fields of its entries.
#[verifier::external_body]
fn read_formats(text: &str) -> (r: Result<Option<Vec<FormatFields>>, serde_json::Error>)
    ensures
        match r {
            Ok(Some(list)) => metadata_formats(text@) == Some(Some(fields_views(list@))),
            Ok(None) => metadata_formats(text@) == Some(None::<Seq<FormatFieldsView>>),
            Err(_) => metadata_formats(text@) is None,
        },
{
    let v: serde_json::Value = serde_json::from_str(text)?;
    Ok(v["formats"].as_array().map(|list| list.iter().map(|f| FormatFields {
        format_id: f["format_id"].as_str().map(String::from),
        ext: f["ext"].as_str().map(String::from),
        height: f["height"].as_i64(),
        vcodec: f["vcodec"].as_str().map(String::from),
        acodec: f["acodec"].as_str().map(String::from),
    }).collect()))
}

/// Relies on `Display` for `serde_json::Error`: the parser's description.
#[verifier::external_body]
fn json_error_text(e: &serde_json::Error) -> (r: String) {
    e.to_string()
}

/// Why probing a url gave no quality choices.
#[derive(Clone, Debug)]
pub enum ProbeError {
    /// The tool's executable is not where it is expected.
    ToolNotFound,
    /// The operating system could not start the tool.
    SpawnFailed { message: String },
    /// The tool ran and failed; `stderr` is what it wrote there.
    ProbeFailed { stderr: String },
    /// The tool's output is not a JSON document.
    MalformedMetadata { message: String },
}

impl ProbeError {
    /// The text shown to the user for this error.
    pub fn message(&self) -> (r: String)
        ensures
            r@ == match self {
                ProbeError::ToolNotFound => "yt-dlp.exe not found in bin directory"@,
                ProbeError::SpawnFailed { message } => "Failed to execute yt-dlp: "@ + message@,
                ProbeError::ProbeFailed { stderr } => "Failed to fetch video info: "@ + stderr@,
                ProbeError::MalformedMetadata { message } => "Failed to parse JSON: "@ + message@,
            },
    {
        match self {
            ProbeError::ToolNotFound => String::from_str("yt-dlp.exe not found in bin directory"),
            ProbeError::SpawnFailed { message } => String::from_str(
                "Failed to execute yt-dlp: ",
            ).concat(message.as_str()),
            ProbeError::ProbeFailed { stderr } => String::from_str(
                "Failed to fetch video info: ",
            ).concat(stderr.as_str()),
            ProbeError::MalformedMetadata { message } => String::from_str(
                "Failed to parse JSON: ",
            ).concat(message.as_str()),
        }
    }
}

/// The format an entry describes: a missing id reads as empty, a missing
/// extension as `mp4`, a missing codec as an absent track.
pub open spec fn raw_format_of(f: FormatFieldsView) -> RawFormatView {
    RawFormatView {
        format_id: match f.format_id {
            Some(s) => s,
            None => ""@,
        },
        ext: match f.ext {
            Some(s) => s,
            None => "mp4"@,
        },
        height: f.height,
        vcodec: f.vcodec,
        acodec: f.acodec,
    }
}

/// The formats a document lists; none when it lists no `formats` array.
pub open spec fn raw_formats_of(list: Option<Seq<FormatFieldsView>>) -> Seq<RawFormatView> {
    match list {
        Some(l) => l.map_values(|f: FormatFieldsView| raw_format_of(f)),
        None => seq![],
    }
}

fn text_or(s: &Option<String>, fallback: &str) -> (r: String)
    ensures
        r@ == match opt_text(*s) {
            Some(t) => t,
            None => fallback@,
        },
{
    match s {
        Some(t) => t.clone(),
        None => String::from_str(fallback),
    }
}

impl RawFormat {
    /// The format an entry of the metadata document describes.
    pub fn from_fields(f: &FormatFields) -> (r: RawFormat)
        ensures
            r@ == raw_format_of(f@),
    {
        RawFormat {
            format_id: text_or(&f.format_id, ""),
            ext: text_or(&f.ext, "mp4"),
            height: f.height,
            vcodec: f.vcodec.clone(),
            acodec: f.acodec.clone(),
        }
    }
}

/// The quality choices for the entries read from a metadata document.
pub fn options_from_fields(list: &Option<Vec<FormatFields>>) -> (r: Vec<QualityOption>)
    ensures
        option_views(r@) == quality_list(
            raw_formats_of(
                match list {
                    Some(l) => Some(fields_views(l@)),
                    None => None,
                },
            ),
        ),
{
    let mut formats: Vec<RawFormat> = Vec::new();
    match list {
        Some(l) => {
            let mut i: usize = 0;
            while i < l.len()
                invariant
                    i <= l.len(),
                    views_of(formats@) =~= raw_formats_of(Some(fields_views(l@))).subrange(
                        0,
                        i as int,
                    ),
                decreases l.len() - i,
            {
                let ghost before = views_of(formats@);
                let f = RawFormat::from_fields(&l[i]);
                formats.push(f);
                assert(views_of(formats@) =~= before.push(f@));
                assert(raw_formats_of(Some(fields_views(l@)))[i as int] == raw_format_of(l@[i as int]@));
                i = i + 1;
            }
            assert(raw_formats_of(Some(fields_views(l@))).subrange(0, i as int) =~= raw_formats_of(
                Some(fields_views(l@)),
            ));
        },
        None => {
            assert(views_of(formats@) =~= raw_formats_of(None));
        },
    }
    quality_options(&formats)
}

/// The quality choices described by the tool's metadata document, or
/// `MalformedMetadata` when it is not JSON.
pub fn options_from_metadata(text: &String) -> (r: Result<Vec<QualityOption>, ProbeError>)
    ensures
        match metadata_formats(text@) {
            None => r matches Err(ProbeError::MalformedMetadata { .. }),
            Some(list) => r is Ok && option_views(r->Ok_0@) == quality_list(raw_formats_of(list)),
        },
{
    match read_formats(text.as_str()) {
        Ok(list) => Ok(options_from_fields(&list)),
        Err(e) => Err(ProbeError::MalformedMetadata { message: json_error_text(&e) }),
    }
}

/// The result of a probe once the tool has exited: `ProbeFailed` with its
/// error output when it failed, else the choices its output describes.
pub fn probe_result(exit_success: bool, stdout: &String, stderr: &String) -> (r: Result<
    Vec<QualityOption>,
    ProbeError,
>)
    ensures
        !exit_success ==> r == Err::<Vec<QualityOption>, ProbeError>(
            ProbeError::ProbeFailed { stderr: *stderr },
        ),
        exit_success ==> match metadata_formats(stdout@) {
            None => r matches Err(ProbeError::MalformedMetadata { .. }),
            Some(list) => r is Ok && option_views(r->Ok_0@) == quality_list(raw_formats_of(list)),
        },
{
    if !exit_success {
        return Err(ProbeError::ProbeFailed { stderr: stderr.clone() });
    }
    options_from_metadata(stdout)
}

} // verus!
