//! Playlists: from what the tool reports of a playlist to the record shown
//! to the user.
//!
//! Durations are whole milliseconds.

use vstd::prelude::*;
use vstd::string::StringExecFns;

verus! {

/// One entry of a playlist as the tool reports it; any part may be missing.
#[derive(Clone, Debug, PartialEq, Eq)]
pub struct ReportedEntry {
    pub id: Option<String>,
    pub title: Option<String>,
    pub url: Option<String>,
    pub duration_ms: Option<u64>,
}

/// A playlist as the tool reports it; any part may be missing.
#[derive(Clone, Debug, PartialEq, Eq)]
pub struct ReportedPlaylist {
    pub title: Option<String>,
    pub channel: Option<String>,
    pub uploader: Option<String>,
    pub description: Option<String>,
    pub entries: Option<Vec<ReportedEntry>>,
}

/// One video of a playlist.
#[derive(Clone, Debug, PartialEq, Eq)]
pub struct PlaylistVideo {
    pub id: String,
    pub title: String,
    pub url: String,
    pub duration_ms: Option<u64>,
}

/// The model of a [`PlaylistVideo`].
pub struct PlaylistVideoView {
    pub id: Seq<char>,
    pub title: Seq<char>,
    pub url: Seq<char>,
    pub duration_ms: Option<u64>,
}

impl DeepView for PlaylistVideo {
    type V = PlaylistVideoView;

    open spec fn deep_view(&self) -> PlaylistVideoView {
        PlaylistVideoView {
            id: self.id@,
            title: self.title@,
            url: self.url@,
            duration_ms: self.duration_ms,
        }
    }
}

impl View for PlaylistVideo {
    type V = PlaylistVideoView;

    open spec fn view(&self) -> PlaylistVideoView {
        self.deep_view()
    }
}

/// A playlist.
#[derive(Clone, Debug, PartialEq, Eq)]
pub struct PlaylistInfo {
    pub title: String,
    pub video_count: usize,
    pub channel: String,
    pub description: String,
    pub entries: Vec<PlaylistVideo>,
}

/// The model of a [`PlaylistInfo`].
pub struct PlaylistInfoView {
    pub title: Seq<char>,
    pub video_count: usize,
    pub channel: Seq<char>,
    pub description: Seq<char>,
    pub entries: Seq<PlaylistVideoView>,
}

impl View for PlaylistInfo {
    type V = PlaylistInfoView;

    open spec fn view(&self) -> PlaylistInfoView {
        PlaylistInfoView {
            title: self.title@,
            video_count: self.video_count,
            channel: self.channel@,
            description: self.description@,
            entries: self.entries.deep_view(),
        }
    }
}

/// The text of `reported`, or `fallback` where it is missing.
pub open spec fn text_or(reported: Option<String>, fallback: Seq<char>) -> Seq<char> {
    match reported {
        Some(text) => text@,
        None => fallback,
    }
}

/// The address under which the video `id` is watched.
pub open spec fn watch_url(id: Seq<char>) -> Seq<char> {
    "https://www.youtube.com/watch?v="@ + id
}

/// The video that the entry `e` with the id `id` stands for.
pub open spec fn video_of(e: ReportedEntry, id: Seq<char>) -> PlaylistVideoView {
    PlaylistVideoView {
        id,
        title: text_or(e.title, "Unknown Video"@),
        url: text_or(e.url, watch_url(id)),
        duration_ms: e.duration_ms,
    }
}

/// The videos of the first `n` reported entries, in their order; an entry
/// without an id is left out.
pub open spec fn videos_among(entries: Seq<ReportedEntry>, n: int) -> Seq<PlaylistVideoView>
    decreases n,
{
    if n <= 0 {
        Seq::empty()
    } else {
        let before = videos_among(entries, n - 1);
        match entries[n - 1].id {
            Some(id) => before.push(video_of(entries[n - 1], id@)),
            None => before,
        }
    }
}

/// The videos of a reported playlist.
pub open spec fn videos_of(entries: Option<Vec<ReportedEntry>>) -> Seq<PlaylistVideoView> {
    match entries {
        Some(list) => videos_among(list@, list@.len() as int),
        None => Seq::empty(),
    }
}

/// The channel of a playlist: the reported channel, else the uploader.
pub open spec fn channel_of(p: ReportedPlaylist) -> Seq<char> {
    match p.channel {
        Some(name) => name@,
        None => text_or(p.uploader, "Unknown Channel"@),
    }
}

/// What [`describe_playlist`] returns.
pub open spec fn playlist_of(p: ReportedPlaylist) -> PlaylistInfoView {
    PlaylistInfoView {
        title: text_or(p.title, "Unknown Playlist"@),
        video_count: videos_of(p.entries).len() as usize,
        channel: channel_of(p),
        description: text_or(p.description, Seq::empty()),
        entries: videos_of(p.entries),
    }
}

/// The videos of a playlist are no more than its reported entries, and as
/// many where every entry has an id.
pub proof fn lemma_videos_count(entries: Seq<ReportedEntry>, n: int)
    requires
        0 <= n <= entries.len(),
    ensures
        videos_among(entries, n).len() <= n,
        (forall|i: int| 0 <= i < n ==> (#[trigger] entries[i]).id.is_some()) ==> videos_among(
            entries,
            n,
        ).len() == n,
    decreases n,
{
    if n > 0 {
        lemma_videos_count(entries, n - 1);
    }
}

fn copy_or(reported: &Option<String>, fallback: &str) -> (text: String)
    ensures
        text@ == text_or(*reported, fallback@),
{
    match reported {
        Some(text) => text.clone(),
        None => String::from_str(fallback),
    }
}

/// Makes the record of a playlist from what the tool reports of it. A
/// missing title, channel or description is replaced by a fixed text, the
/// channel by the uploader first; an entry without an id is left out, and a
/// missing address is made from the id.
pub fn describe_playlist(reported: &ReportedPlaylist) -> (info: PlaylistInfo)
    ensures
        info@ == playlist_of(*reported),
{
    let mut entries: Vec<PlaylistVideo> = Vec::new();
    assert(entries.deep_view() =~= Seq::<PlaylistVideoView>::empty());
    match &reported.entries {
        Some(list) => {
            let mut i: usize = 0;
            while i < list.len()
                invariant
                    i <= list.len(),
                    entries.deep_view() == videos_among(list@, i as int),
                    entries.len() <= i,
                decreases list.len() - i,
            {
                let e = &list[i];
                match &e.id {
                    Some(id) => {
                        let url = match &e.url {
                            Some(u) => u.clone(),
                            None => String::from_str("https://www.youtube.com/watch?v=").concat(
                                id.as_str(),
                            ),
                        };
                        let ghost before = entries.deep_view();
                        entries.push(
                            PlaylistVideo {
                                id: id.clone(),
                                title: copy_or(&e.title, "Unknown Video"),
                                url,
                                duration_ms: e.duration_ms,
                            },
                        );
                        assert(entries.deep_view() =~= before.push(video_of(*e, id@)));
                    },
                    None => {},
                }
                i += 1;
            }
        },
        None => {},
    }
    let channel = match &reported.channel {
        Some(name) => name.clone(),
        None => copy_or(&reported.uploader, "Unknown Channel"),
    };
    let description = match &reported.description {
        Some(text) => text.clone(),
        None => String::new(),
    };
    PlaylistInfo {
        title: copy_or(&reported.title, "Unknown Playlist"),
        video_count: entries.len(),
        channel,
        description,
        entries,
    }
}

} // verus!
