//! Reduction of the tool's raw format list to a short list of quality choices.
use vstd::prelude::*;
use vstd::string::*;

verus! {

/// How a quality choice is grouped for the caller.
#[derive(Clone, Copy, Debug, PartialEq, Eq, Structural)]
pub enum OptionKind {
    Default,
    VideoAudio,
    VideoOnly,
    AudioOnly,
}

/// One quality choice offered to the caller.
#[derive(Clone, Debug)]
pub struct QualityOption {
    /// The format selector handed back to the tool.
    pub id: String,
    pub label: String,
    pub kind: OptionKind,
}

pub struct QualityOptionView {
    pub id: Seq<char>,
    pub label: Seq<char>,
    pub kind: OptionKind,
}

impl View for QualityOption {
    type V = QualityOptionView;

    open spec fn view(&self) -> QualityOptionView {
        QualityOptionView { id: self.id@, label: self.label@, kind: self.kind }
    }
}

/// One entry of the tool's format list. A codec of `"none"`, or none at all,
/// means that the track is absent.
#[derive(Clone, Debug)]
pub struct RawFormat {
    pub format_id: String,
    pub ext: String,
    pub height: Option<i64>,
    pub vcodec: Option<String>,
    pub acodec: Option<String>,
}

pub struct RawFormatView {
    pub format_id: Seq<char>,
    pub ext: Seq<char>,
    pub height: Option<int>,
    pub vcodec: Option<Seq<char>>,
    pub acodec: Option<Seq<char>>,
}

pub open spec fn opt_text(o: Option<String>) -> Option<Seq<char>> {
    match o {
        Some(s) => Some(s@),
        None => None,
    }
}

impl View for RawFormat {
    type V = RawFormatView;

    open spec fn view(&self) -> RawFormatView {
        RawFormatView {
            format_id: self.format_id@,
            ext: self.ext@,
            height: match self.height {
                Some(h) => Some(h as int),
                None => None,
            },
            vcodec: opt_text(self.vcodec),
            acodec: opt_text(self.acodec),
        }
    }
}

pub open spec fn digit_char(d: nat) -> char {
    ((d % 10) + 48) as char
}

/// Decimal digits of a natural number, most significant first.
pub open spec fn digits_of(n: nat) -> Seq<char>
    decreases n,
{
    if n < 10 {
        seq![digit_char(n)]
    } else {
        digits_of(n / 10).push(digit_char(n % 10))
    }
}

/// An integer written in decimal, with a leading `-` when negative.
pub open spec fn decimal_text(n: int) -> Seq<char> {
    if n < 0 {
        seq!['-'] + digits_of((-n) as nat)
    } else {
        digits_of(n as nat)
    }
}

/// The digit character of `d`, which is below ten.
fn digit_text(d: u64) -> (r: &'static str)
    requires
        d < 10,
    ensures
        r@ == seq![digit_char(d as nat)],
{
    proof {
        reveal_strlit("0");
        reveal_strlit("1");
        reveal_strlit("2");
        reveal_strlit("3");
        reveal_strlit("4");
        reveal_strlit("5");
        reveal_strlit("6");
        reveal_strlit("7");
        reveal_strlit("8");
        reveal_strlit("9");
    }
    match d {
        0 => "0",
        1 => "1",
        2 => "2",
        3 => "3",
        4 => "4",
        5 => "5",
        6 => "6",
        7 => "7",
        8 => "8",
        _ => "9",
    }
}

/// The decimal digits of `m`.
fn digits(m: u64) -> (r: String)
    ensures
        r@ == digits_of(m as nat),
    decreases m,
{
    if m < 10 {
        String::from_str(digit_text(m))
    } else {
        digits(m / 10).concat(digit_text(m % 10))
    }
}

/// `n` written in decimal.
fn decimal(n: i64) -> (r: String)
    ensures
        r@ == decimal_text(n as int),
{
    if n < 0 {
        let m: u64 = ((-(n + 1)) as u64) + 1;
        assert(m as int == -(n as int));
        proof {
            reveal_strlit("-");
        }
        String::from_str("-").concat(digits(m).as_str())
    } else {
        digits(n as u64)
    }
}

/// A track is present when its codec is named and is not `"none"`.
pub open spec fn has_track(codec: Option<Seq<char>>) -> bool {
    codec is Some && codec->0 != "none"@
}

pub open spec fn resolution_text(height: int) -> Seq<char> {
    decimal_text(height) + "p"@
}

/// The kind and dedup key of the choice a format would give, if it gives one.
pub open spec fn candidate(f: RawFormatView) -> Option<(OptionKind, Seq<char>)> {
    let video = has_track(f.vcodec);
    let audio = has_track(f.acodec);
    if video && audio {
        match f.height {
            Some(h) => Some((OptionKind::VideoAudio, resolution_text(h))),
            None => None,
        }
    } else if video {
        match f.height {
            Some(h) => Some((OptionKind::VideoOnly, resolution_text(h) + "-video"@)),
            None => None,
        }
    } else if audio {
        Some((OptionKind::AudioOnly, "audio-"@ + f.format_id))
    } else {
        None
    }
}

/// The choice a format gives, once `candidate` has given it a kind.
pub open spec fn option_for(f: RawFormatView, kind: OptionKind) -> QualityOptionView {
    let label = match kind {
        OptionKind::VideoAudio => resolution_text(f.height->0) + " ("@ + f.ext + ")"@,
        OptionKind::VideoOnly => resolution_text(f.height->0) + " (video only)"@,
        _ => "Audio only ("@ + f.ext + ")"@,
    };
    QualityOptionView { id: f.format_id, label, kind }
}

/// The choices found by scanning `fs` from its last entry to its first,
/// each with its dedup key, skipping keys already in `seen`; the scan ends
/// with the first audio-only choice.
pub open spec fn scan(fs: Seq<RawFormatView>, seen: Seq<Seq<char>>) -> Seq<
    (QualityOptionView, Seq<char>),
>
    decreases fs.len(),
{
    if fs.len() == 0 {
        seq![]
    } else {
        let f = fs.last();
        let rest = fs.drop_last();
        match candidate(f) {
            None => scan(rest, seen),
            Some((kind, key)) => if seen.contains(key) {
                scan(rest, seen)
            } else if kind == OptionKind::AudioOnly {
                seq![(option_for(f, kind), key)]
            } else {
                seq![(option_for(f, kind), key)] + scan(rest, seen.push(key))
            },
        }
    }
}

pub open spec fn views_of(fs: Seq<RawFormat>) -> Seq<RawFormatView> {
    fs.map_values(|f: RawFormat| f@)
}

/// The choices derived from a format list, with their dedup keys.
pub open spec fn quality_entries(fs: Seq<RawFormatView>) -> Seq<(QualityOptionView, Seq<char>)> {
    scan(fs, seq![])
}

pub open spec fn best_option() -> QualityOptionView {
    QualityOptionView { id: "best"@, label: "Best Available"@, kind: OptionKind::Default }
}

pub open spec fn worst_option() -> QualityOptionView {
    QualityOptionView { id: "worst"@, label: "Lowest Available"@, kind: OptionKind::Default }
}

/// The full list of choices for a format list: the two defaults, then the
/// derived choices.
pub open spec fn quality_list(fs: Seq<RawFormatView>) -> Seq<QualityOptionView> {
    seq![best_option(), worst_option()] + quality_entries(fs).map_values(
        |e: (QualityOptionView, Seq<char>)| e.0,
    )
}

pub open spec fn option_views(v: Seq<QualityOption>) -> Seq<QualityOptionView> {
    v.map_values(|o: QualityOption| o@)
}

pub open spec fn texts(v: Seq<String>) -> Seq<Seq<char>> {
    v.map_values(|s: String| s@)
}

impl QualityOption {
    fn new(id: &str, label: &str, kind: OptionKind) -> (r: QualityOption)
        ensures
            r@ == (QualityOptionView { id: id@, label: label@, kind }),
    {
        QualityOption { id: String::from_str(id), label: String::from_str(label), kind }
    }
}

fn has_track_exec(codec: &Option<String>) -> (r: bool)
    ensures
        r == has_track(opt_text(*codec)),
{
    match codec {
        Some(c) => !(*c == String::from_str("none")),
        None => false,
    }
}

fn contains_text(v: &Vec<String>, s: &String) -> (r: bool)
    ensures
        r == texts(v@).contains(s@),
{
    let mut i: usize = 0;
    while i < v.len()
        invariant
            i <= v.len(),
            forall|j: int| 0 <= j < i ==> v@[j]@ != s@,
        decreases v.len() - i,
    {
        if v[i] == *s {
            assert(texts(v@)[i as int] == s@);
            return true;
        }
        i = i + 1;
    }
    assert(!texts(v@).contains(s@)) by {
        if texts(v@).contains(s@) {
            let j = choose|j: int| 0 <= j < texts(v@).len() && texts(v@)[j] == s@;
            assert(v@[j]@ == s@);
        }
    }
    false
}

/// The kind, dedup key and label of the choice a format gives.
struct Candidate {
    kind: OptionKind,
    key: String,
    label: String,
}

/// The choice `f` gives, if it gives one.
fn candidate_exec(f: &RawFormat) -> (r: Option<Candidate>)
    ensures
        match candidate(f@) {
            None => r is None,
            Some((kind, key)) => r is Some && r->0.kind == kind && r->0.key@ == key
                && r->0.label@ == option_for(f@, kind).label,
        },
{
    let video = has_track_exec(&f.vcodec);
    let audio = has_track_exec(&f.acodec);
    if video {
        match f.height {
            Some(h) => {
                let res = decimal(h).concat("p");
                if audio {
                    let label = res.clone().concat(" (").concat(f.ext.as_str()).concat(")");
                    Some(Candidate { kind: OptionKind::VideoAudio, key: res, label })
                } else {
                    let label = res.clone().concat(" (video only)");
                    let key = res.concat("-video");
                    Some(Candidate { kind: OptionKind::VideoOnly, key, label })
                }
            },
            None => None,
        }
    } else if audio {
        let key = String::from_str("audio-").concat(f.format_id.as_str());
        let label = String::from_str("Audio only (").concat(f.ext.as_str()).concat(")");
        Some(Candidate { kind: OptionKind::AudioOnly, key, label })
    } else {
        None
    }
}

/// Derives the quality choices from the tool's format list: `best` and
/// `worst` first, then one choice per new dedup key, scanning the list from
/// its end and stopping after the first audio-only choice.
pub fn quality_options(formats: &Vec<RawFormat>) -> (r: Vec<QualityOption>)
    ensures
        option_views(r@) == quality_list(views_of(formats@)),
        r@.len() >= 2,
        r@[0]@ == best_option(),
        r@[1]@ == worst_option(),
{
    let ghost fs = views_of(formats@);
    let ghost all = quality_entries(fs);
    let mut out: Vec<QualityOption> = Vec::new();
    out.push(QualityOption::new("best", "Best Available", OptionKind::Default));
    out.push(QualityOption::new("worst", "Lowest Available", OptionKind::Default));
    let mut keys: Vec<String> = Vec::new();
    let ghost mut found: Seq<(QualityOptionView, Seq<char>)> = seq![];
    let mut stop = false;
    let mut i: usize = formats.len();
    assert(fs.subrange(0, i as int) =~= fs);
    assert(texts(keys@) =~= Seq::<Seq<char>>::empty());
    assert(found + all =~= all);
    while i > 0 && !stop
        invariant
            i <= formats.len(),
            fs == views_of(formats@),
            all == quality_entries(fs),
            option_views(out@) =~= seq![best_option(), worst_option()] + found.map_values(
                |e: (QualityOptionView, Seq<char>)| e.0,
            ),
            stop ==> found == all,
            !stop ==> found + scan(fs.subrange(0, i as int), texts(keys@)) == all,
        decreases i,
    {
        let ghost sub = fs.subrange(0, i as int);
        assert(sub.drop_last() =~= fs.subrange(0, i - 1));
        assert(sub.last() == formats@[i - 1]@);
        let f = &formats[i - 1];
        match candidate_exec(f) {
            None => {},
            Some(Candidate { kind, key, label }) => {
                if !contains_text(&keys, &key) {
                    let ghost entry = (option_for(f@, kind), key@);
                    let ghost before = option_views(out@);
                    out.push(QualityOption { id: f.format_id.clone(), label, kind });
                    assert(option_views(out@) =~= before.push(entry.0));
                    let ghost old_keys = texts(keys@);
                    proof {
                        found = found.push(entry);
                    }
                    if kind == OptionKind::AudioOnly {
                        stop = true;
                    } else {
                        keys.push(key);
                        assert(texts(keys@) =~= old_keys.push(entry.1));
                    }
                    assert(found.map_values(|e: (QualityOptionView, Seq<char>)| e.0) =~= found.drop_last().map_values(
                        |e: (QualityOptionView, Seq<char>)| e.0,
                    ).push(entry.0));
                }
            },
        }
        i = i - 1;
    }
    if !stop {
        assert(fs.subrange(0, 0) =~= Seq::<RawFormatView>::empty());
        assert(found + Seq::<(QualityOptionView, Seq<char>)>::empty() =~= found);
    }
    assert(option_views(out@)[0] == out@[0]@);
    assert(option_views(out@)[1] == out@[1]@);
    out
}

proof fn lemma_scan_shape(fs: Seq<RawFormatView>, seen: Seq<Seq<char>>)
    ensures
        ({
            let e = scan(fs, seen);
            &&& forall|i: int| 0 <= i < e.len() ==> !seen.contains(#[trigger] e[i].1)
            &&& forall|i: int, j: int| 0 <= i < j < e.len() ==> #[trigger] e[i].1 != #[trigger] e[j].1
            &&& forall|i: int|
                0 <= i < e.len() && (#[trigger] e[i]).0.kind == OptionKind::AudioOnly ==> i == e.len()
                    - 1
            &&& forall|i: int|
                0 <= i < e.len() && (#[trigger] e[i]).0.kind == OptionKind::VideoAudio
                    ==> e[i].0.label.subrange(0, e[i].1.len() as int) == e[i].1
        }),
    decreases fs.len(),
{
    if fs.len() > 0 {
        let f = fs.last();
        let rest = fs.drop_last();
        lemma_scan_shape(rest, seen);
        match candidate(f) {
            None => {},
            Some((kind, key)) => {
                if !seen.contains(key) && kind != OptionKind::AudioOnly {
                    lemma_scan_shape(rest, seen.push(key));
                    let e = scan(fs, seen);
                    let tail = scan(rest, seen.push(key));
                    assert(e == seq![(option_for(f, kind), key)] + tail);
                    assert forall|i: int| 0 <= i < e.len() implies !seen.contains(#[trigger] e[i].1) by {
                        if i > 0 {
                            assert(e[i] == tail[i - 1]);
                            assert(!seen.push(key).contains(tail[i - 1].1));
                            if seen.contains(tail[i - 1].1) {
                                let k = choose|k: int| 0 <= k < seen.len() && seen[k] == tail[i - 1].1;
                                assert(seen.push(key)[k] == tail[i - 1].1);
                            }
                        }
                    }
                    assert forall|i: int, j: int| 0 <= i < j < e.len() implies #[trigger] e[i].1
                        != #[trigger] e[j].1 by {
                        assert(e[j] == tail[j - 1]);
                        if i == 0 {
                            assert(seen.push(key)[seen.len() as int] == key);
                        } else {
                            assert(e[i] == tail[i - 1]);
                        }
                    }
                    assert forall|i: int|
                        0 <= i < e.len() && (#[trigger] e[i]).0.kind == OptionKind::VideoAudio implies e[i].0.label.subrange(
                        0,
                        e[i].1.len() as int,
                    ) == e[i].1 by {
                        if i == 0 {
                            let r = resolution_text(f.height->0);
                            assert((r + " ("@ + f.ext + ")"@).subrange(0, r.len() as int) =~= r);
                        } else {
                            assert(e[i] == tail[i - 1]);
                        }
                    }
                    assert forall|i: int|
                        0 <= i < e.len() && (#[trigger] e[i]).0.kind == OptionKind::AudioOnly implies i
                        == e.len() - 1 by {
                        if i > 0 {
                            assert(e[i] == tail[i - 1]);
                        }
                    }
                }
            },
        }
    }
}

/// No two derived choices share a dedup key. In particular no two
/// video-with-audio choices share a resolution (their label starts with
/// it), and at most one audio-only choice appears, as the last one.
pub proof fn lemma_choices_are_deduplicated(fs: Seq<RawFormatView>)
    ensures
        ({
            let e = quality_entries(fs);
            &&& forall|i: int, j: int| 0 <= i < j < e.len() ==> #[trigger] e[i].1 != #[trigger] e[j].1
            &&& forall|i: int|
                0 <= i < e.len() && (#[trigger] e[i]).0.kind == OptionKind::VideoAudio
                    ==> e[i].0.label.subrange(0, e[i].1.len() as int) == e[i].1
            &&& forall|i: int, j: int|
                0 <= i < j < e.len() && (#[trigger] e[i]).0.kind == OptionKind::AudioOnly ==> (#[trigger] e[j]).0.kind
                    != OptionKind::AudioOnly
            &&& forall|i: int|
                0 <= i < e.len() && (#[trigger] e[i]).0.kind == OptionKind::AudioOnly ==> i == e.len()
                    - 1
        }),
{
    lemma_scan_shape(fs, seq![]);
}

/// The two defaults lead every list of choices, whatever the formats.
pub proof fn lemma_defaults_first(fs: Seq<RawFormatView>)
    ensures
        quality_list(fs).len() >= 2,
        quality_list(fs)[0] == best_option(),
        quality_list(fs)[1] == worst_option(),
{
}

/// Once the scan has produced an audio-only choice from the entries `post`,
/// the entries before them in the list are never examined: whatever `pre`
/// holds, the result is the same.
pub proof fn lemma_audio_ends_scan(
    pre: Seq<RawFormatView>,
    post: Seq<RawFormatView>,
    seen: Seq<Seq<char>>,
    i: int,
)
    requires
        0 <= i < scan(post, seen).len(),
        scan(post, seen)[i].0.kind == OptionKind::AudioOnly,
    ensures
        scan(pre + post, seen) == scan(post, seen),
    decreases post.len(),
{
    let all = pre + post;
    assert(all.last() == post.last());
    assert(all.drop_last() =~= pre + post.drop_last());
    let f = post.last();
    let rest = post.drop_last();
    match candidate(f) {
        None => {
            lemma_audio_ends_scan(pre, rest, seen, i);
        },
        Some((kind, key)) => {
            if seen.contains(key) {
                lemma_audio_ends_scan(pre, rest, seen, i);
            } else if kind != OptionKind::AudioOnly {
                let tail = scan(rest, seen.push(key));
                assert(scan(post, seen) == seq![(option_for(f, kind), key)] + tail);
                assert(scan(post, seen)[i] == tail[i - 1]);
                lemma_audio_ends_scan(pre, rest, seen.push(key), i - 1);
            }
        },
    }
}

/// Whether a format gives an audio-only choice when its key is new.
pub open spec fn gives_audio(f: RawFormatView) -> bool {
    match candidate(f) {
        Some((kind, _)) => kind == OptionKind::AudioOnly,
        None => false,
    }
}

/// Keys that no audio-only choice has: those not starting with `a`.
pub open spec fn not_audio_key(k: Seq<char>) -> bool {
    k.len() > 0 && k[0] != 'a'
}

proof fn lemma_digits_start(n: nat)
    ensures
        digits_of(n).len() > 0,
        '0' <= digits_of(n)[0] <= '9',
    decreases n,
{
    if n >= 10 {
        lemma_digits_start(n / 10);
    }
}

/// A video key starts with a digit or `-`, never with `a`.
proof fn lemma_video_key(f: RawFormatView)
    requires
        candidate(f) is Some,
        !gives_audio(f),
    ensures
        ({
            let (kind, key) = candidate(f)->0;
            not_audio_key(key)
        }),
{
    let h = f.height->0;
    if h < 0 {
        lemma_digits_start((-h) as nat);
    } else {
        lemma_digits_start(h as nat);
    }
}

proof fn lemma_scan_reaches_audio(post: Seq<RawFormatView>, seen: Seq<Seq<char>>)
    requires
        post.len() > 0,
        gives_audio(post[0]),
        forall|j: int| 0 < j < post.len() ==> !gives_audio(#[trigger] post[j]),
        forall|j: int| 0 <= j < seen.len() ==> not_audio_key(#[trigger] seen[j]),
    ensures
        scan(post, seen).len() > 0,
        scan(post, seen).last() == (option_for(post[0], OptionKind::AudioOnly), "audio-"@ + post[0].format_id),
    decreases post.len(),
{
    let f = post.last();
    let rest = post.drop_last();
    if post.len() == 1 {
        let key = "audio-"@ + f.format_id;
        assert(key[0] == 'a') by {
            reveal_strlit("audio-");
        }
        if seen.contains(key) {
            let j = choose|j: int| 0 <= j < seen.len() && seen[j] == key;
            assert(not_audio_key(seen[j]));
        }
    } else {
        assert(!gives_audio(post[post.len() - 1]));
        assert(rest[0] == post[0]);
        assert forall|j: int| 0 < j < rest.len() implies !gives_audio(#[trigger] rest[j]) by {
            assert(rest[j] == post[j]);
        }
        match candidate(f) {
            None => lemma_scan_reaches_audio(rest, seen),
            Some((kind, key)) => {
                if seen.contains(key) {
                    lemma_scan_reaches_audio(rest, seen);
                } else {
                    lemma_video_key(f);
                    assert forall|j: int| 0 <= j < seen.push(key).len() implies not_audio_key(
                        #[trigger] seen.push(key)[j],
                    ) by {
                        if j < seen.len() {
                            assert(seen.push(key)[j] == seen[j]);
                        }
                    }
                    lemma_scan_reaches_audio(rest, seen.push(key));
                }
            },
        }
    }
}

/// The entry that the scan meets first among those giving an audio-only
/// choice (the last such entry of the list) always gives it, since no video
/// key can equal an audio key; the scan ends there, so the result is what
/// the entries from it to the end of the list give, and entries before it
/// are never examined.
pub proof fn lemma_first_audio_ends_scan(fs: Seq<RawFormatView>, k: int)
    requires
        0 <= k < fs.len(),
        gives_audio(fs[k]),
        forall|j: int| k < j < fs.len() ==> !gives_audio(#[trigger] fs[j]),
    ensures
        quality_entries(fs) == scan(fs.subrange(k, fs.len() as int), seq![]),
        quality_entries(fs).len() > 0,
        quality_entries(fs).last() == (option_for(fs[k], OptionKind::AudioOnly), "audio-"@ + fs[k].format_id),
{
    let pre = fs.subrange(0, k);
    let post = fs.subrange(k, fs.len() as int);
    assert(post[0] == fs[k]);
    assert forall|j: int| 0 < j < post.len() implies !gives_audio(#[trigger] post[j]) by {
        assert(post[j] == fs[k + j]);
    }
    lemma_scan_reaches_audio(post, seq![]);
    let e = scan(post, seq![]);
    lemma_audio_ends_scan(pre, post, seq![], e.len() - 1);
    assert(pre + post =~= fs);
}

} // verus!
