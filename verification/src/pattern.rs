//! The patterns that recognise the lines the download tool writes, and the
//! scan of one line against all of them.
//!
//! The patterns are regular expressions and are matched by the `regex` crate.
//! What that crate reports for a pattern and a text is named by
//! [`first_match`]; everything built on top of it is verified.

use vstd::prelude::*;
use vstd::string::StringExecFns;
use crate::progress::{parse_percent, raw_percent};
use crate::session::Phase;
use crate::text::{trim, trimmed};

verus! {

/// A complete progress line: percentage, size, speed and time left.
pub const PROGRESS_FULL: &'static str =
    r"\[download\]\s+(\d+\.?\d*)%\s+of\s+(~?[\d.]+\s*[kKMGT]?i?B)\s+at\s+([\d.]+\s*[kKMGT]?i?B/s)\s+ETA\s+([\d:]+)";

/// A progress line whose speed and time left are arbitrary tokens.
pub const PROGRESS_LOOSE: &'static str =
    r"\[download\]\s+(\d+\.?\d*)%\s+of\s+(~?[\d.]+\s*[kKMGT]?i?B)\s+at\s+(\S+)\s+ETA\s+(\S+)";

/// The bracketed progress line of the accelerated downloader.
pub const PROGRESS_ACCELERATED: &'static str =
    r"\[#\w+\s+[\d.]+[kKMGT]?i?B/([\d.]+[kKMGT]?i?B)\((\d+)%\).*DL:([\d.]+[kKMGT]?i?B).*ETA:(\w+)";

/// A progress line with percentage and size only.
pub const PROGRESS_BRIEF: &'static str = r"\[download\]\s+(\d+\.?\d*)%\s+of\s+(~?[\d.]+\s*[kKMGT]?i?B)";

/// An information line that names the stream being fetched.
pub const STREAM_HINT: &'static str = r"\[info\].*?:\s*Downloading.*?(video|audio)";

/// The marker of the merge of the legs.
pub const MERGE_MARKER: &'static str = r"\[Merger\]|\[ffmpeg\].*Merging";

/// The marker of a post-processing step.
pub const POST_PROCESS_MARKER: &'static str =
    r"\[(ExtractAudio|EmbedSubtitle|EmbedThumbnail|Metadata|FixupM3u8|FixupM4a)\]";

/// The line that announces the file a leg is written to.
pub const DESTINATION: &'static str = r"\[download\]\s+Destination:\s+(.+)";

/// The line that reports a file as present already.
pub const ALREADY_DOWNLOADED: &'static str = r"has already been downloaded";

/// A height bound inside a selection expression.
pub const HEIGHT_LIMIT: &'static str = r"height<=(\d+)";

/// What the `regex` crate reports for the first match of `pattern` in
/// `haystack`: `None` where `pattern` is no regular expression or nothing
/// matches; otherwise one entry per capture group, the whole match first,
/// each the matched text, or `None` for a group that took no part.
pub uninterp spec fn first_match(pattern: Seq<char>, haystack: Seq<char>) -> Option<
    Seq<Option<Seq<char>>>,
>;

/// Compiles `pattern` with `regex::Regex::new` and searches `haystack` with
/// `regex::Regex::captures`. The contract names the outcome
/// [`first_match`] and claims nothing else of it. The pattern is compiled on
/// every call, so that the outcome depends on the two texts alone.
#[verifier::external_body]
pub(crate) fn search(pattern: &str, haystack: &str) -> (found: Option<Vec<Option<String>>>)
    ensures
        found.deep_view() == first_match(pattern@, haystack@),
{
    match regex::Regex::new(pattern) {
        Ok(re) => match re.captures(haystack) {
            Some(caps) => Some(caps.iter().map(|g| g.map(|m| m.as_str().to_string())).collect()),
            None => None,
        },
        Err(_) => None,
    }
}

/// The text of capture group `i`; empty where the group is missing or took no
/// part in the match.
pub open spec fn group(found: Seq<Option<Seq<char>>>, i: int) -> Seq<char> {
    if 0 <= i < found.len() {
        match found[i] {
            Some(text) => text,
            None => Seq::empty(),
        }
    } else {
        Seq::empty()
    }
}

/// Executable form of [`group`].
pub fn group_text(found: &Vec<Option<String>>, i: usize) -> (text: String)
    ensures
        text@ == group(found.deep_view(), i as int),
{
    if i < found.len() {
        match &found[i] {
            Some(text) => text.clone(),
            None => String::new(),
        }
    } else {
        String::new()
    }
}

/// The figures of one progress line.
#[derive(Clone, Debug, PartialEq, Eq)]
pub struct ProgressReading {
    /// The raw percentage of the current leg.
    pub percent: u32,
    /// The total size, as written.
    pub size: String,
    /// The transfer speed, as written.
    pub speed: String,
    /// The time left, as written.
    pub eta: String,
}

/// The model of a [`ProgressReading`].
pub struct ProgressReadingView {
    pub percent: u32,
    pub size: Seq<char>,
    pub speed: Seq<char>,
    pub eta: Seq<char>,
}

impl DeepView for ProgressReading {
    type V = ProgressReadingView;

    open spec fn deep_view(&self) -> ProgressReadingView {
        ProgressReadingView {
            percent: self.percent,
            size: self.size@,
            speed: self.speed@,
            eta: self.eta@,
        }
    }
}

impl View for ProgressReading {
    type V = ProgressReadingView;

    open spec fn view(&self) -> ProgressReadingView {
        self.deep_view()
    }
}

/// What the patterns find in one line.
#[derive(Clone, Debug, PartialEq, Eq)]
pub struct LineScan {
    /// The figures of the line, where it is a progress line.
    pub progress: Option<ProgressReading>,
    /// The announced path, where the line announces a destination.
    pub destination: Option<String>,
    /// The stream that an information line names.
    pub stream_hint: Option<Phase>,
    /// Whether the line carries the merge marker.
    pub merging: bool,
    /// Whether the line carries a post-processing marker.
    pub post_processing: bool,
    /// Whether the line reports a file as present already.
    pub already_downloaded: bool,
}

/// The model of a [`LineScan`].
pub struct LineScanView {
    pub progress: Option<ProgressReadingView>,
    pub destination: Option<Seq<char>>,
    pub stream_hint: Option<Phase>,
    pub merging: bool,
    pub post_processing: bool,
    pub already_downloaded: bool,
}

impl DeepView for LineScan {
    type V = LineScanView;

    open spec fn deep_view(&self) -> LineScanView {
        LineScanView {
            progress: self.progress.deep_view(),
            destination: self.destination.deep_view(),
            stream_hint: self.stream_hint,
            merging: self.merging,
            post_processing: self.post_processing,
            already_downloaded: self.already_downloaded,
        }
    }
}

impl View for LineScan {
    type V = LineScanView;

    open spec fn view(&self) -> LineScanView {
        self.deep_view()
    }
}

/// The kinds of progress line, each recognised by a pattern of its own.
#[derive(Clone, Copy, Debug, PartialEq, Eq, Structural)]
pub enum ProgressFamily {
    /// Percentage, size, speed and time left, each well formed.
    Full,
    /// Percentage and size, with speed and time left as arbitrary tokens.
    Loose,
    /// The bracketed line of the accelerated downloader.
    Accelerated,
    /// Percentage and size only.
    Brief,
}

/// The number of kinds of progress line.
pub const FAMILY_COUNT: usize = 4;

/// The kinds of progress line in the order in which a line is held against
/// them: the most complete first, the degraded forms after it.
pub open spec fn families() -> Seq<ProgressFamily> {
    seq![
        ProgressFamily::Full,
        ProgressFamily::Loose,
        ProgressFamily::Accelerated,
        ProgressFamily::Brief,
    ]
}

/// The pattern that recognises a kind of progress line.
pub open spec fn family_pattern(family: ProgressFamily) -> Seq<char> {
    match family {
        ProgressFamily::Full => PROGRESS_FULL@,
        ProgressFamily::Loose => PROGRESS_LOOSE@,
        ProgressFamily::Accelerated => PROGRESS_ACCELERATED@,
        ProgressFamily::Brief => PROGRESS_BRIEF@,
    }
}

/// The figures of a progress line of the kind `family`, read from the
/// capture groups `found` of its pattern. The accelerated downloader puts
/// the size before the percentage; a brief line tells neither speed nor time
/// left, which are shown as three dots.
pub open spec fn reading_of(family: ProgressFamily, found: Seq<Option<Seq<char>>>) -> ProgressReadingView {
    match family {
        ProgressFamily::Full | ProgressFamily::Loose => ProgressReadingView {
            percent: raw_percent(group(found, 1)),
            size: trimmed(group(found, 2)),
            speed: trimmed(group(found, 3)),
            eta: trimmed(group(found, 4)),
        },
        ProgressFamily::Accelerated => ProgressReadingView {
            percent: raw_percent(group(found, 2)),
            size: group(found, 1),
            speed: group(found, 3),
            eta: group(found, 4),
        },
        ProgressFamily::Brief => ProgressReadingView {
            percent: raw_percent(group(found, 1)),
            size: trimmed(group(found, 2)),
            speed: "..."@,
            eta: "..."@,
        },
    }
}

/// The figures of `text` as a progress line of one of the kinds from place
/// `k` of [`families`] on: the first of them whose pattern matches decides.
pub open spec fn progress_from(text: Seq<char>, k: int) -> Option<ProgressReadingView>
    decreases families().len() - k,
{
    if k < 0 || k >= families().len() {
        None
    } else {
        match first_match(family_pattern(families()[k]), text) {
            Some(found) => Some(reading_of(families()[k], found)),
            None => progress_from(text, k + 1),
        }
    }
}

/// The figures of `text` as a progress line: exactly one kind is taken, the
/// first in the order of [`families`] whose pattern matches; `None` where
/// none matches.
pub open spec fn progress_of(text: Seq<char>) -> Option<ProgressReadingView> {
    progress_from(text, 0)
}

/// The phase that the name of a stream stands for.
pub open spec fn phase_named(name: Seq<char>) -> Option<Phase> {
    if name == "video"@ {
        Some(Phase::Video)
    } else if name == "audio"@ {
        Some(Phase::Audio)
    } else {
        None
    }
}

/// The stream that `text` names as an information line.
pub open spec fn stream_hint_of(text: Seq<char>) -> Option<Phase> {
    match first_match(STREAM_HINT@, text) {
        Some(found) => phase_named(group(found, 1)),
        None => None,
    }
}

/// The path that `text` announces as a destination line.
pub open spec fn destination_of(text: Seq<char>) -> Option<Seq<char>> {
    match first_match(DESTINATION@, text) {
        Some(found) => Some(group(found, 1)),
        None => None,
    }
}

/// What the patterns find in `text`.
pub open spec fn scan_of(text: Seq<char>) -> LineScanView {
    LineScanView {
        progress: progress_of(text),
        destination: destination_of(text),
        stream_hint: stream_hint_of(text),
        merging: first_match(MERGE_MARKER@, text).is_some(),
        post_processing: first_match(POST_PROCESS_MARKER@, text).is_some(),
        already_downloaded: first_match(ALREADY_DOWNLOADED@, text).is_some(),
    }
}

impl ProgressFamily {
    /// The kind at place `k` of the order in which a line is held against
    /// the kinds.
    pub fn at(k: usize) -> (family: ProgressFamily)
        requires
            k < FAMILY_COUNT,
        ensures
            family == families()[k as int],
    {
        if k == 0 {
            ProgressFamily::Full
        } else if k == 1 {
            ProgressFamily::Loose
        } else if k == 2 {
            ProgressFamily::Accelerated
        } else {
            ProgressFamily::Brief
        }
    }

    /// The pattern that recognises the kind.
    pub fn pattern(&self) -> (pattern: &'static str)
        ensures
            pattern@ == family_pattern(*self),
    {
        match self {
            ProgressFamily::Full => PROGRESS_FULL,
            ProgressFamily::Loose => PROGRESS_LOOSE,
            ProgressFamily::Accelerated => PROGRESS_ACCELERATED,
            ProgressFamily::Brief => PROGRESS_BRIEF,
        }
    }

    /// Reads the figures of a progress line of this kind from the capture
    /// groups of its pattern.
    pub fn read(&self, found: &Vec<Option<String>>) -> (reading: ProgressReading)
        ensures
            reading@ == reading_of(*self, found.deep_view()),
    {
        match self {
            ProgressFamily::Full | ProgressFamily::Loose => ProgressReading {
                percent: parse_percent(group_text(found, 1).as_str()),
                size: trim(group_text(found, 2).as_str()),
                speed: trim(group_text(found, 3).as_str()),
                eta: trim(group_text(found, 4).as_str()),
            },
            ProgressFamily::Accelerated => ProgressReading {
                percent: parse_percent(group_text(found, 2).as_str()),
                size: group_text(found, 1),
                speed: group_text(found, 3),
                eta: group_text(found, 4),
            },
            ProgressFamily::Brief => ProgressReading {
                percent: parse_percent(group_text(found, 1).as_str()),
                size: trim(group_text(found, 2).as_str()),
                speed: String::from_str("..."),
                eta: String::from_str("..."),
            },
        }
    }
}

/// Reads the figures of a progress line; `None` for any other line.
pub fn scan_progress(text: &str) -> (progress: Option<ProgressReading>)
    ensures
        progress.deep_view() == progress_of(text@),
{
    let mut k: usize = 0;
    while k < FAMILY_COUNT
        invariant
            k <= FAMILY_COUNT,
            progress_of(text@) == progress_from(text@, k as int),
        decreases FAMILY_COUNT - k,
    {
        let family = ProgressFamily::at(k);
        if let Some(found) = search(family.pattern(), text) {
            return Some(family.read(&found));
        }
        k += 1;
    }
    None
}

/// The phase that the name of a stream stands for.
pub fn phase_of_name(name: &str) -> (phase: Option<Phase>)
    ensures
        phase == phase_named(name@),
{
    let owned = String::from_str(name);
    if owned == String::from_str("video") {
        Some(Phase::Video)
    } else if owned == String::from_str("audio") {
        Some(Phase::Audio)
    } else {
        None
    }
}

/// Holds `text` against every line pattern.
pub fn scan_line(text: &str) -> (scan: LineScan)
    ensures
        scan@ == scan_of(text@),
{
    let progress = scan_progress(text);
    let destination = match search(DESTINATION, text) {
        Some(found) => Some(group_text(&found, 1)),
        None => None,
    };
    let stream_hint = match search(STREAM_HINT, text) {
        Some(found) => phase_of_name(group_text(&found, 1).as_str()),
        None => None,
    };
    let merging = search(MERGE_MARKER, text).is_some();
    let post_processing = search(POST_PROCESS_MARKER, text).is_some();
    let already_downloaded = search(ALREADY_DOWNLOADED, text).is_some();
    LineScan { progress, destination, stream_hint, merging, post_processing, already_downloaded }
}

} // verus!
