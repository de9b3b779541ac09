use dlp_supervisor::playlist::{
    describe_playlist, PlaylistInfo, PlaylistVideo, ReportedEntry, ReportedPlaylist,
};

fn text(s: &str) -> Option<String> {
    Some(s.to_string())
}

fn entry(id: Option<&str>, title: Option<&str>, url: Option<&str>, ms: Option<u64>) -> ReportedEntry {
    ReportedEntry {
        id: id.map(|s| s.to_string()),
        title: title.map(|s| s.to_string()),
        url: url.map(|s| s.to_string()),
        duration_ms: ms,
    }
}

#[test]
fn empty_report_gets_the_fixed_texts() {
    let reported = ReportedPlaylist {
        title: None,
        channel: None,
        uploader: None,
        description: None,
        entries: None,
    };
    assert_eq!(
        describe_playlist(&reported),
        PlaylistInfo {
            title: "Unknown Playlist".to_string(),
            video_count: 0,
            channel: "Unknown Channel".to_string(),
            description: "".to_string(),
            entries: vec![],
        }
    );
}

#[test]
fn channel_comes_before_uploader() {
    let mut reported = ReportedPlaylist {
        title: text("Mix"),
        channel: text("The Channel"),
        uploader: text("The Uploader"),
        description: text("words"),
        entries: Some(vec![]),
    };
    let info = describe_playlist(&reported);
    assert_eq!(info.title, "Mix");
    assert_eq!(info.channel, "The Channel");
    assert_eq!(info.description, "words");
    reported.channel = None;
    assert_eq!(describe_playlist(&reported).channel, "The Uploader");
}

#[test]
fn entries_without_id_are_left_out() {
    let reported = ReportedPlaylist {
        title: text("Mix"),
        channel: None,
        uploader: None,
        description: None,
        entries: Some(vec![
            entry(Some("a1"), Some("First"), Some("https://example.org/a1"), Some(61_500)),
            entry(None, Some("Lost"), Some("https://example.org/lost"), Some(1)),
            entry(Some("b2"), None, None, None),
            entry(Some(""), Some("Empty id"), None, Some(0)),
        ]),
    };
    let info = describe_playlist(&reported);
    assert_eq!(info.video_count, 3);
    assert_eq!(
        info.entries,
        vec![
            PlaylistVideo {
                id: "a1".to_string(),
                title: "First".to_string(),
                url: "https://example.org/a1".to_string(),
                duration_ms: Some(61_500),
            },
            PlaylistVideo {
                id: "b2".to_string(),
                title: "Unknown Video".to_string(),
                url: "https://www.youtube.com/watch?v=b2".to_string(),
                duration_ms: None,
            },
            PlaylistVideo {
                id: "".to_string(),
                title: "Empty id".to_string(),
                url: "https://www.youtube.com/watch?v=".to_string(),
                duration_ms: Some(0),
            },
        ]
    );
}
