//! The argument lists with which the download tool is started.

use vstd::prelude::*;
use vstd::string::StringExecFns;
use crate::pattern::{first_match, group, group_text, search, HEIGHT_LIMIT};

verus! {

/// The name of the staging directory beneath the destination directory.
pub const STAGING_DIR_NAME: &'static str = "_dlpgui_temp";

/// What a session is started with.
#[derive(Clone, Debug, PartialEq, Eq)]
pub struct StartParams {
    /// Where the transcoding tool lies.
    pub tool_path: String,
    /// The resource to fetch.
    pub url: String,
    /// The directory the result goes to.
    pub home_dir: String,
    /// The directory in which the tool keeps its unfinished files.
    pub staging_dir: String,
    /// The selection expression of the chosen quality.
    pub selection: String,
    /// Whether subtitles are wanted.
    pub subtitles: bool,
    /// Whether the accelerated downloader is to be used.
    pub accelerated: bool,
}

/// The model of [`StartParams`].
pub struct StartParamsView {
    pub tool_path: Seq<char>,
    pub url: Seq<char>,
    pub home_dir: Seq<char>,
    pub staging_dir: Seq<char>,
    pub selection: Seq<char>,
    pub subtitles: bool,
    pub accelerated: bool,
}

impl View for StartParams {
    type V = StartParamsView;

    open spec fn view(&self) -> StartParamsView {
        StartParamsView {
            tool_path: self.tool_path@,
            url: self.url@,
            home_dir: self.home_dir@,
            staging_dir: self.staging_dir@,
            selection: self.selection@,
            subtitles: self.subtitles,
            accelerated: self.accelerated,
        }
    }
}

/// The arguments every session gets: progress on lines of its own, no
/// self-update, no playlist expansion, the transcoding tool, the result
/// format, the two directories and the naming of the result.
pub open spec fn common_arguments(p: StartParamsView) -> Seq<Seq<char>> {
    seq![
        "--progress"@,
        "--newline"@,
        "--no-update"@,
        "--no-playlist"@,
        "--js-runtimes"@,
        "node"@,
        "--remote-components"@,
        "ejs:github"@,
        "--ffmpeg-location"@,
        p.tool_path,
        "--merge-output-format"@,
        "mp4"@,
        "--no-keep-fragments"@,
        "-P"@,
        "home:"@ + p.home_dir,
        "-P"@,
        "temp:"@ + p.staging_dir,
        "-o"@,
        "%(title)s.%(ext)s"@,
    ]
}

/// The arguments that choose the transfer. The accelerated downloader cannot
/// fetch segmented streams, so with it the source is kept from offering
/// them; without it the source is kept to them, which escapes the throttling
/// of the other kind.
pub open spec fn transfer_arguments(accelerated: bool) -> Seq<Seq<char>> {
    if accelerated {
        seq![
            "--extractor-args"@,
            "youtube:skip=hls"@,
            "--downloader"@,
            "aria2c"@,
            "--downloader-args"@,
            "aria2c:-x16 -s16 -k1M --file-allocation=none --check-certificate=false"@,
        ]
    } else {
        seq!["--extractor-args"@, "youtube:skip=dash"@]
    }
}

/// The arguments that choose the encoding. A selection that bounds the
/// height is replaced by a sort by that resolution and a plain selector,
/// because the tool does not combine a sort with a detailed selection; any
/// other selection is handed on as it is.
pub open spec fn selection_arguments(selection: Seq<char>, height: Option<Seq<char>>) -> Seq<
    Seq<char>,
> {
    match height {
        Some(h) => seq!["-S"@, "res:"@ + h, "-f"@, "bv+ba/b"@],
        None => seq!["-f"@, selection],
    }
}

/// The arguments that ask for subtitles: written, embedded, English only.
pub open spec fn subtitle_arguments(subtitles: bool) -> Seq<Seq<char>> {
    if subtitles {
        seq![
            "--write-subs"@,
            "--write-auto-sub"@,
            "--embed-subs"@,
            "--sub-langs"@,
            "en.*,en,-live_chat"@,
        ]
    } else {
        Seq::empty()
    }
}

/// The whole argument list of a session, the resource last.
pub open spec fn arguments_of(p: StartParamsView, height: Option<Seq<char>>) -> Seq<Seq<char>> {
    common_arguments(p) + transfer_arguments(p.accelerated) + selection_arguments(
        p.selection,
        height,
    ) + subtitle_arguments(p.subtitles) + seq!["-N"@, "4"@, p.url]
}

/// The height that a selection expression is bounded by: the digits of its
/// first `height<=`, where the `regex` crate finds one.
pub open spec fn height_limit_of(selection: Seq<char>) -> Option<Seq<char>> {
    match first_match(HEIGHT_LIMIT@, selection) {
        Some(found) => Some(group(found, 1)),
        None => None,
    }
}

/// Appends a copy of `s`.
fn push_text(list: &mut Vec<String>, s: &str)
    ensures
        final(list).deep_view() == old(list).deep_view().push(s@),
{
    list.push(String::from_str(s));
    assert(list.deep_view() =~= old(list).deep_view().push(s@));
}

/// Appends `s`.
fn push_owned(list: &mut Vec<String>, s: String)
    ensures
        final(list).deep_view() == old(list).deep_view().push(s@),
{
    list.push(s);
    assert(list.deep_view() =~= old(list).deep_view().push(s@));
}

/// Executable form of [`height_limit_of`].
pub fn height_limit(selection: &str) -> (height: Option<String>)
    ensures
        height.deep_view() == height_limit_of(selection@),
{
    match search(HEIGHT_LIMIT, selection) {
        Some(found) => Some(group_text(&found, 1)),
        None => None,
    }
}

/// Builds the argument list of a session whose selection is bounded by
/// `height`, or by nothing.
pub fn assemble_arguments(params: &StartParams, height: &Option<String>) -> (list: Vec<String>)
    ensures
        list.deep_view() == arguments_of(params@, height.deep_view()),
{
    let mut list: Vec<String> = Vec::new();
    assert(list.deep_view() =~= Seq::<Seq<char>>::empty());
    push_text(&mut list, "--progress");
    push_text(&mut list, "--newline");
    push_text(&mut list, "--no-update");
    push_text(&mut list, "--no-playlist");
    push_text(&mut list, "--js-runtimes");
    push_text(&mut list, "node");
    push_text(&mut list, "--remote-components");
    push_text(&mut list, "ejs:github");
    push_text(&mut list, "--ffmpeg-location");
    push_text(&mut list, params.tool_path.as_str());
    push_text(&mut list, "--merge-output-format");
    push_text(&mut list, "mp4");
    push_text(&mut list, "--no-keep-fragments");
    push_text(&mut list, "-P");
    push_owned(&mut list, String::from_str("home:").concat(params.home_dir.as_str()));
    push_text(&mut list, "-P");
    push_owned(&mut list, String::from_str("temp:").concat(params.staging_dir.as_str()));
    push_text(&mut list, "-o");
    push_text(&mut list, "%(title)s.%(ext)s");
    assert(list.deep_view() =~= common_arguments(params@));
    let ghost common = list.deep_view();
    if params.accelerated {
        push_text(&mut list, "--extractor-args");
        push_text(&mut list, "youtube:skip=hls");
        push_text(&mut list, "--downloader");
        push_text(&mut list, "aria2c");
        push_text(&mut list, "--downloader-args");
        push_text(
            &mut list,
            "aria2c:-x16 -s16 -k1M --file-allocation=none --check-certificate=false",
        );
    } else {
        push_text(&mut list, "--extractor-args");
        push_text(&mut list, "youtube:skip=dash");
    }
    assert(list.deep_view() =~= common + transfer_arguments(params.accelerated));
    let ghost chosen = list.deep_view();
    match height {
        Some(h) => {
            push_text(&mut list, "-S");
            push_owned(&mut list, String::from_str("res:").concat(h.as_str()));
            push_text(&mut list, "-f");
            push_text(&mut list, "bv+ba/b");
        },
        None => {
            push_text(&mut list, "-f");
            push_text(&mut list, params.selection.as_str());
        },
    }
    assert(list.deep_view() =~= chosen + selection_arguments(
        params@.selection,
        height.deep_view(),
    ));
    let ghost selected = list.deep_view();
    if params.subtitles {
        push_text(&mut list, "--write-subs");
        push_text(&mut list, "--write-auto-sub");
        push_text(&mut list, "--embed-subs");
        push_text(&mut list, "--sub-langs");
        push_text(&mut list, "en.*,en,-live_chat");
    }
    assert(list.deep_view() =~= selected + subtitle_arguments(params.subtitles));
    let ghost subtitled = list.deep_view();
    push_text(&mut list, "-N");
    push_text(&mut list, "4");
    push_text(&mut list, params.url.as_str());
    assert(list.deep_view() =~= subtitled + seq!["-N"@, "4"@, params@.url]);
    list
}

/// Builds the argument list of a session.
pub fn download_arguments(params: &StartParams) -> (list: Vec<String>)
    ensures
        list.deep_view() == arguments_of(params@, height_limit_of(params@.selection)),
{
    let height = height_limit(params.selection.as_str());
    assemble_arguments(params, &height)
}

/// The argument list that asks for the metadata of `url` as one JSON
/// document.
pub open spec fn metadata_arguments_of(url: Seq<char>) -> Seq<Seq<char>> {
    seq![
        "-J"@,
        "--no-warnings"@,
        "--js-runtimes"@,
        "node"@,
        "--remote-components"@,
        "ejs:github"@,
        "--extractor-args"@,
        "youtube:skip=dash"@,
        url,
    ]
}

/// Builds the argument list that asks for the metadata of `url`.
pub fn metadata_arguments(url: &str) -> (list: Vec<String>)
    ensures
        list.deep_view() == metadata_arguments_of(url@),
{
    let mut list: Vec<String> = Vec::new();
    assert(list.deep_view() =~= Seq::<Seq<char>>::empty());
    push_text(&mut list, "-J");
    push_text(&mut list, "--no-warnings");
    push_text(&mut list, "--js-runtimes");
    push_text(&mut list, "node");
    push_text(&mut list, "--remote-components");
    push_text(&mut list, "ejs:github");
    push_text(&mut list, "--extractor-args");
    push_text(&mut list, "youtube:skip=dash");
    push_text(&mut list, url);
    assert(list.deep_view() =~= metadata_arguments_of(url@));
    list
}

/// The argument list that asks for the entries of the playlist `url`
/// without looking into each.
pub open spec fn playlist_arguments_of(url: Seq<char>) -> Seq<Seq<char>> {
    seq!["-J"@, "--flat-playlist"@, "--no-warnings"@, url]
}

/// Builds the argument list that asks for the entries of the playlist
/// `url`.
pub fn playlist_arguments(url: &str) -> (list: Vec<String>)
    ensures
        list.deep_view() == playlist_arguments_of(url@),
{
    let mut list: Vec<String> = Vec::new();
    assert(list.deep_view() =~= Seq::<Seq<char>>::empty());
    push_text(&mut list, "-J");
    push_text(&mut list, "--flat-playlist");
    push_text(&mut list, "--no-warnings");
    push_text(&mut list, url);
    assert(list.deep_view() =~= playlist_arguments_of(url@));
    list
}

} // verus!
