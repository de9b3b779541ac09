use dlp_supervisor::pattern::{
    group_text, phase_of_name, scan_line, scan_progress, LineScan, ProgressFamily,
    ProgressReading, FAMILY_COUNT,
};
use dlp_supervisor::session::Phase;

fn reading(percent: u32, size: &str, speed: &str, eta: &str) -> ProgressReading {
    ProgressReading {
        percent,
        size: size.to_string(),
        speed: speed.to_string(),
        eta: eta.to_string(),
    }
}

fn nothing() -> LineScan {
    LineScan {
        progress: None,
        destination: None,
        stream_hint: None,
        merging: false,
        post_processing: false,
        already_downloaded: false,
    }
}

#[test]
fn full_progress_line() {
    let scan = scan_line("[download]  45.3% of 100.00MiB at 2.50MiB/s ETA 00:20");
    assert_eq!(
        scan,
        LineScan { progress: Some(reading(4530, "100.00MiB", "2.50MiB/s", "00:20")), ..nothing() }
    );
}

#[test]
fn full_progress_line_with_estimated_size() {
    let p = scan_progress("[download]   0.1% of ~1.20 GiB at  512.00 KiB/s ETA 01:02:03");
    assert_eq!(p, Some(reading(10, "~1.20 GiB", "512.00 KiB/s", "01:02:03")));
}

#[test]
fn loose_progress_line() {
    let p = scan_progress("[download]  12.0% of 50.00MiB at Unknown ETA Unknown");
    assert_eq!(p, Some(reading(1200, "50.00MiB", "Unknown", "Unknown")));
}

#[test]
fn accelerated_progress_line() {
    let p = scan_progress("[#2089b0 400.0KiB/33.2MiB(1%) CN:1 DL:115.7KiB ETA:4m51s]");
    assert_eq!(p, Some(reading(100, "33.2MiB", "115.7KiB", "4m51s")));
}

#[test]
fn accelerated_progress_line_takes_the_last_speed() {
    let p = scan_progress("[#a1 1.0MiB/2.0MiB(50%) DL:1.0KiB x DL:9.5MiB ETA:1s ETA:2m]");
    assert_eq!(p, Some(reading(5000, "2.0MiB", "9.5MiB", "2m")));
}

#[test]
fn brief_progress_line() {
    let p = scan_progress("[download] 100% of 10.00MiB in 00:05");
    assert_eq!(p, Some(reading(10_000, "10.00MiB", "...", "...")));
}

#[test]
fn progress_line_with_unreadable_speed_falls_to_brief() {
    let p = scan_progress("[download]  12.0% of ~50.00MiB at Unknown B/s ETA Unknown");
    assert_eq!(p, Some(reading(1200, "~50.00MiB", "...", "...")));
}

#[test]
fn first_progress_pattern_wins() {
    let p = scan_progress(
        "[download]  10.0% of 1.00MiB at 1.00MiB/s ETA 00:01 [#a 1.0KiB/2.0KiB(77%) DL:1.0KiB ETA:9s]",
    );
    assert_eq!(p, Some(reading(1000, "1.00MiB", "1.00MiB/s", "00:01")));
}

#[test]
fn progress_found_inside_a_longer_line() {
    let p = scan_progress("noise [download] 5% of 3B at 1B/s ETA 0:03 trailing");
    assert_eq!(p, Some(reading(500, "3B", "1B/s", "0:03")));
}

#[test]
fn no_progress_in_other_lines() {
    for line in [
        "",
        "[youtube] abc: Downloading webpage",
        "[download] Destination: a.mp4",
        "[download] 45.3%",
        "download 45.3% of 1MiB",
        "[#2089b0 400.0KiB/33.2MiB(1%) CN:1]",
    ] {
        assert_eq!(scan_progress(line), None, "{:?}", line);
    }
}

#[test]
fn destination_line() {
    let scan = scan_line("[download] Destination: /home/u/_dlpgui_temp/My Video.f137.mp4");
    assert_eq!(
        scan,
        LineScan {
            destination: Some("/home/u/_dlpgui_temp/My Video.f137.mp4".to_string()),
            ..nothing()
        }
    );
}

#[test]
fn destination_keeps_what_follows_the_gap() {
    let scan = scan_line("[download]   Destination:   a b.mp4  ");
    assert_eq!(scan.destination, Some("a b.mp4  ".to_string()));
}

#[test]
fn merge_markers() {
    assert!(scan_line("[Merger] Merging formats into \"x.mp4\"").merging);
    assert!(scan_line("[ffmpeg] Merging formats into \"x.mp4\"").merging);
    assert!(!scan_line("[ffmpeg] Fixing container").merging);
    assert!(!scan_line("Merger").merging);
}

#[test]
fn post_processing_markers() {
    for name in
        ["ExtractAudio", "EmbedSubtitle", "EmbedThumbnail", "Metadata", "FixupM3u8", "FixupM4a"]
    {
        let line = format!("[{}] working on it", name);
        assert!(scan_line(&line).post_processing, "{}", name);
    }
    assert!(!scan_line("[Merger] Merging").post_processing);
    assert!(!scan_line("Metadata").post_processing);
    assert!(!scan_line("[metadata] x").post_processing);
}

#[test]
fn already_downloaded_line() {
    let scan = scan_line("[download] /v/a.mp4 has already been downloaded");
    assert_eq!(scan, LineScan { already_downloaded: true, ..nothing() });
}

#[test]
fn stream_hints() {
    assert_eq!(scan_line("[info] abc: Downloading 1 video stream").stream_hint, Some(Phase::Video));
    assert_eq!(scan_line("[info] abc: Downloading the audio").stream_hint, Some(Phase::Audio));
    assert_eq!(
        scan_line("[info] abc: Downloading audio then video").stream_hint,
        Some(Phase::Audio)
    );
    assert_eq!(scan_line("[info] abc: Downloading 1 format(s): 137+140").stream_hint, None);
    assert_eq!(scan_line("[info] Downloading video").stream_hint, None);
    assert_eq!(scan_line("[youtube] abc: Downloading video").stream_hint, None);
}

#[test]
fn a_line_may_match_several_patterns() {
    let scan = scan_line(
        "[Merger] [Metadata] [download] Destination: x.mp4 has already been downloaded",
    );
    assert!(scan.merging);
    assert!(scan.post_processing);
    assert!(scan.already_downloaded);
    assert_eq!(scan.destination, Some("x.mp4 has already been downloaded".to_string()));
    assert_eq!(scan.progress, None);
}

#[test]
fn plain_line_matches_nothing() {
    assert_eq!(scan_line("[youtube] Extracting URL: https://example.org/watch?v=1"), nothing());
}

#[test]
fn phase_names() {
    assert_eq!(phase_of_name("video"), Some(Phase::Video));
    assert_eq!(phase_of_name("audio"), Some(Phase::Audio));
    assert_eq!(phase_of_name("Video"), None);
    assert_eq!(phase_of_name(""), None);
    assert_eq!(phase_of_name("merging"), None);
}

#[test]
fn group_text_of_missing_groups_is_empty() {
    let found = vec![Some("whole".to_string()), None, Some("two".to_string())];
    assert_eq!(group_text(&found, 0), "whole");
    assert_eq!(group_text(&found, 1), "");
    assert_eq!(group_text(&found, 2), "two");
    assert_eq!(group_text(&found, 3), "");
}

fn groups(texts: &[&str]) -> Vec<Option<String>> {
    texts.iter().map(|t| Some(t.to_string())).collect()
}

#[test]
fn families_are_tried_from_the_most_complete_on() {
    let order: Vec<ProgressFamily> = (0..FAMILY_COUNT).map(ProgressFamily::at).collect();
    assert_eq!(
        order,
        vec![
            ProgressFamily::Full,
            ProgressFamily::Loose,
            ProgressFamily::Accelerated,
            ProgressFamily::Brief,
        ]
    );
}

#[test]
fn each_family_reads_its_own_groups() {
    let found = groups(&["whole", "45.3", " 1MiB ", " 2MiB/s\t", "00:07 "]);
    assert_eq!(ProgressFamily::Full.read(&found), reading(4530, "1MiB", "2MiB/s", "00:07"));
    assert_eq!(ProgressFamily::Loose.read(&found), reading(4530, "1MiB", "2MiB/s", "00:07"));
    assert_eq!(ProgressFamily::Brief.read(&found), reading(4530, "1MiB", "...", "..."));
    let found = groups(&["whole", " 9MiB", "12", "3KiB ", "4s"]);
    assert_eq!(ProgressFamily::Accelerated.read(&found), reading(1200, " 9MiB", "3KiB ", "4s"));
}

#[test]
fn missing_groups_read_as_nothing() {
    assert_eq!(ProgressFamily::Full.read(&vec![]), reading(0, "", "", ""));
    assert_eq!(ProgressFamily::Brief.read(&vec![None, None]), reading(0, "", "...", "..."));
    let found = vec![Some("w".to_string()), Some("x".to_string()), None, Some("s".to_string())];
    assert_eq!(ProgressFamily::Loose.read(&found), reading(0, "", "s", ""));
    assert_eq!(ProgressFamily::Accelerated.read(&found), reading(0, "x", "s", ""));
}

#[test]
fn patterns_of_the_families_differ() {
    let patterns: Vec<&str> =
        (0..FAMILY_COUNT).map(|k| ProgressFamily::at(k).pattern()).collect();
    for i in 0..patterns.len() {
        for j in 0..i {
            assert_ne!(patterns[i], patterns[j]);
        }
    }
}
