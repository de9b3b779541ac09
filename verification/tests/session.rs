use dlp_supervisor::pattern::{scan_line, LineScan, ProgressReading};
use dlp_supervisor::progress::{MERGING_PERCENT, PROCESSING_PERCENT};
use dlp_supervisor::session::{
    announced_path_of, speaks_of_failure, Phase, ProcessEvent, Session, SessionEvent, Status,
};

fn session() -> Session {
    Session::new("s1".to_string())
}

fn progress(percentage: u64, size: &str, speed: &str, eta: &str, phase: Phase) -> SessionEvent {
    SessionEvent::Progress {
        id: "s1".to_string(),
        percentage,
        speed: speed.to_string(),
        eta: eta.to_string(),
        size: size.to_string(),
        status: Status::Downloading,
        phase,
    }
}

fn title(t: &str) -> SessionEvent {
    SessionEvent::TitleChanged { id: "s1".to_string(), title: t.to_string() }
}

fn log(message: &str, is_error: bool) -> SessionEvent {
    SessionEvent::Log { id: "s1".to_string(), message: message.to_string(), is_error }
}

fn status(s: Status) -> SessionEvent {
    SessionEvent::StatusChanged { id: "s1".to_string(), status: s }
}

fn plain_scan() -> LineScan {
    LineScan {
        progress: None,
        destination: None,
        stream_hint: None,
        merging: false,
        post_processing: false,
        already_downloaded: false,
    }
}

const DEST_VIDEO: &str = "[download] Destination: /v/_dlpgui_temp/Clip.f137.mp4";
const DEST_AUDIO: &str = "[download] Destination: /v/_dlpgui_temp/Clip.f140.m4a";
const HALF: &str = "[download]  50.0% of 10.00MiB at 1.00MiB/s ETA 00:05";
const FULL: &str = "[download] 100.0% of 10.00MiB at 1.00MiB/s ETA 00:00";

#[test]
fn new_session_has_seen_nothing() {
    let s = session();
    assert_eq!(s.id, "s1");
    assert_eq!(s.current_phase, Phase::Downloading);
    assert_eq!(s.leg_count, 0);
}

#[test]
fn progress_without_legs_passes_through() {
    let mut s = session();
    let events = s.on_output_line("[download]  37.5% of 10.00MiB at 1.00MiB/s ETA 00:05");
    assert_eq!(events, vec![progress(375_000, "10.00MiB", "1.00MiB/s", "00:05", Phase::Downloading)]);
    assert_eq!(s.leg_count, 0);
    assert_eq!(s.current_phase, Phase::Downloading);
}

#[test]
fn two_legs_fill_one_scale() {
    let mut s = session();
    assert_eq!(s.on_output_line(DEST_VIDEO), vec![title("Clip.f137.mp4"), log(DEST_VIDEO, false)]);
    assert_eq!(s.current_phase, Phase::Video);
    assert_eq!(s.leg_count, 1);
    assert_eq!(
        s.on_output_line(HALF),
        vec![progress(250_000, "10.00MiB", "1.00MiB/s", "00:05", Phase::Video)]
    );
    assert_eq!(
        s.on_output_line(FULL),
        vec![progress(500_000, "10.00MiB", "1.00MiB/s", "00:00", Phase::Video)]
    );
    assert_eq!(s.on_output_line(DEST_AUDIO), vec![title("Clip.f140.m4a"), log(DEST_AUDIO, false)]);
    assert_eq!(s.current_phase, Phase::Audio);
    assert_eq!(s.leg_count, 2);
    assert_eq!(
        s.on_output_line(HALF),
        vec![progress(725_000, "10.00MiB", "1.00MiB/s", "00:05", Phase::Audio)]
    );
    assert_eq!(
        s.on_output_line(FULL),
        vec![progress(950_000, "10.00MiB", "1.00MiB/s", "00:00", Phase::Audio)]
    );
}

#[test]
fn destination_lines_never_move_past_audio() {
    let mut s = session();
    s.on_output_line(DEST_VIDEO);
    assert_eq!(s.current_phase, Phase::Video);
    for n in 2..6u64 {
        s.on_output_line(DEST_AUDIO);
        assert_eq!(s.current_phase, Phase::Audio);
        assert_eq!(s.leg_count, n);
    }
    s.on_output_line("[Merger] Merging formats into \"Clip.mp4\"");
    assert_eq!(s.current_phase, Phase::Merging);
}

#[test]
fn merge_marker_reports_ninety_nine_whatever_the_phase() {
    let line = "[Merger] Merging formats into \"Clip.mp4\"";
    for phase in
        [Phase::Downloading, Phase::Video, Phase::Audio, Phase::Merging, Phase::Processing]
    {
        let mut s = session();
        s.current_phase = phase;
        s.leg_count = 2;
        let events = s.on_output_line(line);
        assert_eq!(
            events,
            vec![progress(MERGING_PERCENT, "", "", "", Phase::Merging), log(line, false)]
        );
        assert_eq!(s.current_phase, Phase::Merging);
        assert_eq!(s.leg_count, 2);
    }
    assert_eq!(MERGING_PERCENT, 990_000);
}

#[test]
fn post_processing_marker_reports_ninety_nine_and_a_half() {
    let line = "[EmbedSubtitle] Embedding subtitles in \"Clip.mp4\"";
    let mut s = session();
    let events = s.on_output_line(line);
    assert_eq!(
        events,
        vec![progress(PROCESSING_PERCENT, "", "", "", Phase::Processing), log(line, false)]
    );
    assert_eq!(s.current_phase, Phase::Processing);
    assert_eq!(PROCESSING_PERCENT, 995_000);
}

#[test]
fn both_markers_on_one_line() {
    let line = "[Merger] then [Metadata]";
    let mut s = session();
    let events = s.on_output_line(line);
    assert_eq!(
        events,
        vec![
            progress(MERGING_PERCENT, "", "", "", Phase::Merging),
            progress(PROCESSING_PERCENT, "", "", "", Phase::Processing),
            log(line, false),
        ]
    );
    assert_eq!(s.current_phase, Phase::Processing);
}

#[test]
fn stream_hint_sets_the_phase() {
    let mut s = session();
    let hint = "[info] abc: Downloading 1 audio stream";
    assert_eq!(s.on_output_line(hint), vec![log(hint, false)]);
    assert_eq!(s.current_phase, Phase::Audio);
    assert_eq!(s.leg_count, 0);
    assert_eq!(
        s.on_output_line(HALF),
        vec![progress(500_000, "10.00MiB", "1.00MiB/s", "00:05", Phase::Audio)]
    );
}

#[test]
fn already_downloaded_line_names_the_file() {
    let line = "[download] /v/Clip.mp4 has already been downloaded";
    let mut s = session();
    assert_eq!(s.on_output_line(line), vec![title("Clip.mp4"), log(line, false)]);
    assert_eq!(s.leg_count, 0);
    assert_eq!(s.current_phase, Phase::Downloading);
}

#[test]
fn already_downloaded_line_without_the_head_names_nothing() {
    let line = "/v/Clip.mp4 has already been downloaded";
    let mut s = session();
    assert_eq!(s.on_output_line(line), vec![log(line, false)]);
}

#[test]
fn announced_path_is_cut_between_head_and_tail() {
    let cut = |s: &str| announced_path_of(s).map(|p| p.into_iter().collect::<String>());
    assert_eq!(cut("[download] /v/a.mp4 has already been downloaded"), Some("/v/a.mp4".to_string()));
    assert_eq!(cut("x [download] a has already b has already"), Some("a".to_string()));
    assert_eq!(cut("[download]  has already"), Some("".to_string()));
    assert_eq!(cut("[download] a.mp4"), None);
    assert_eq!(cut("a has already [download] b"), None);
    assert_eq!(cut(""), None);
}

#[test]
fn white_space_at_the_end_of_a_line_is_dropped() {
    let mut s = session();
    let events = s.on_output_line("[download] Destination: /v/a.mp4 \r\n");
    assert_eq!(events, vec![title("a.mp4"), log("[download] Destination: /v/a.mp4", false)]);
    let events = s.on_output_line("  [download] Destination: /v/b.mp4\u{a0}\n");
    assert_eq!(events, vec![title("b.mp4"), log("  [download] Destination: /v/b.mp4", false)]);
    assert_eq!(s.on_error_line(" indented\t"), vec![log(" indented", true)]);
}

#[test]
fn empty_lines_are_passed_over() {
    let mut s = session();
    for line in ["", " ", "\r\n", "\t \u{a0}"] {
        assert_eq!(s.on_output_line(line), vec![]);
        assert_eq!(s.on_error_line(line), vec![]);
    }
    assert_eq!(s, session());
}

#[test]
fn ordinary_output_is_logged_and_changes_nothing() {
    let mut s = session();
    let line = "[youtube] abc: Downloading webpage";
    assert_eq!(s.on_output_line(line), vec![log(line, false)]);
    assert_eq!(s, session());
}

#[test]
fn progress_lines_are_not_logged() {
    let mut s = session();
    for line in [
        HALF,
        "[download]  12.0% of 50.00MiB at Unknown ETA Unknown",
        "[#2089b0 400.0KiB/33.2MiB(1%) CN:1 DL:115.7KiB ETA:4m51s]",
        "[download] 100% of 10.00MiB in 00:05",
    ] {
        let events = s.on_output_line(line);
        assert_eq!(events.len(), 1, "{:?}", line);
        assert!(matches!(events[0], SessionEvent::Progress { .. }), "{:?}", line);
    }
}

#[test]
fn failures_on_output_are_logged() {
    let mut s = session();
    for line in [
        "ERROR: unable to download video data",
        "WARNING: something odd",
        "Postprocessing failed",
        "Some Error here",
    ] {
        assert_eq!(s.on_output_line(line), vec![log(line, false)], "{:?}", line);
    }
}

#[test]
fn progress_line_that_speaks_of_failure_is_logged_too() {
    let line = "[download]  50.0% of 10.00MiB at 1.00MiB/s ETA 00:05 (retry after error)";
    let mut s = session();
    assert_eq!(
        s.on_output_line(line),
        vec![
            progress(500_000, "10.00MiB", "1.00MiB/s", "00:05", Phase::Downloading),
            log(line, false),
        ]
    );
}

#[test]
fn error_lines_are_logged_unless_progress() {
    let s = session();
    assert_eq!(s.on_error_line("anything at all"), vec![log("anything at all", true)]);
    assert_eq!(s.on_error_line("ERROR: no  "), vec![log("ERROR: no", true)]);
    assert_eq!(s.on_error_line(HALF), vec![]);
    let odd = "[download]  50.0% of 10.00MiB at 1.00MiB/s ETA 00:05 FAILED";
    assert_eq!(s.on_error_line(odd), vec![log(odd, true)]);
    assert_eq!(s.on_error_line(DEST_VIDEO), vec![log(DEST_VIDEO, true)]);
}

#[test]
fn failure_tokens() {
    assert!(speaks_of_failure("ERROR: x"));
    assert!(speaks_of_failure("a Warning b"));
    assert!(speaks_of_failure("it FaIlEd"));
    assert!(!speaks_of_failure("all fine"));
    assert!(!speaks_of_failure("erro r warnin g faile d"));
    assert!(!speaks_of_failure(""));
}

#[test]
fn termination_is_reported_once() {
    let mut s = session();
    let r = s.handle(ProcessEvent::Terminated(Some(0)));
    assert_eq!(r.events, vec![status(Status::Completed)]);
    assert!(r.finished);
    for code in [Some(1), Some(-1), Some(255), None] {
        let mut s = session();
        let r = s.handle(ProcessEvent::Terminated(code));
        assert_eq!(r.events, vec![status(Status::Error)], "{:?}", code);
        assert!(r.finished);
    }
    assert_eq!(session().conclude(Some(0)), status(Status::Completed));
    assert_eq!(session().conclude(None), status(Status::Error));
}

#[test]
fn handle_decodes_lines() {
    let mut s = session();
    let r = s.handle(ProcessEvent::Stdout(DEST_VIDEO.as_bytes().to_vec()));
    assert_eq!(r.events, vec![title("Clip.f137.mp4"), log(DEST_VIDEO, false)]);
    assert!(!r.finished);
    assert_eq!(s.current_phase, Phase::Video);
    let r = s.handle(ProcessEvent::Stderr(b"WARNING: slow\n".to_vec()));
    assert_eq!(r.events, vec![log("WARNING: slow", true)]);
    assert!(!r.finished);
    let r = s.handle(ProcessEvent::Other);
    assert_eq!(r.events, vec![]);
    assert!(!r.finished);
    assert_eq!(s.leg_count, 1);
}

#[test]
fn handle_replaces_bytes_that_are_no_text() {
    let mut s = session();
    let mut bytes = b"[download] Destination: /v/caf".to_vec();
    bytes.push(0xE9);
    bytes.extend_from_slice(b".mp4");
    let r = s.handle(ProcessEvent::Stdout(bytes));
    let line = "[download] Destination: /v/caf\u{fffd}.mp4";
    assert_eq!(r.events, vec![title("caf\u{fffd}.mp4"), log(line, false)]);
    let r = s.handle(ProcessEvent::Stdout("[download] Destination: /v/café.mp4".as_bytes().to_vec()));
    assert_eq!(r.events[0], title("café.mp4"));
}

#[test]
fn absorb_output_follows_the_scan_it_is_given() {
    let mut s = session();
    let scan = LineScan {
        progress: Some(ProgressReading {
            percent: 2000,
            size: "1MiB".to_string(),
            speed: "2MiB/s".to_string(),
            eta: "3s".to_string(),
        }),
        destination: Some("  /a/b/c.mp4  ".to_string()),
        stream_hint: Some(Phase::Audio),
        merging: false,
        post_processing: false,
        already_downloaded: true,
    };
    let events = s.absorb_output("any text", &scan);
    assert_eq!(events, vec![progress(100_000, "1MiB", "2MiB/s", "3s", Phase::Audio)]);
    let events = session().absorb_output("any text", &plain_scan());
    assert_eq!(events, vec![log("any text", false)]);
    assert_eq!(s.leg_count, 1);
    assert_eq!(s.current_phase, Phase::Audio);
    let scan = LineScan { destination: Some("  /a/b/c.mp4  ".to_string()), ..plain_scan() };
    let events = s.absorb_output("any text", &scan);
    assert_eq!(events, vec![title("c.mp4"), log("any text", false)]);
    assert_eq!(s.leg_count, 2);
}

#[test]
fn leg_count_stops_at_the_largest_value() {
    let mut s = session();
    s.leg_count = u64::MAX;
    s.absorb_output(DEST_AUDIO, &scan_line(DEST_AUDIO));
    assert_eq!(s.leg_count, u64::MAX);
    assert_eq!(s.current_phase, Phase::Audio);
}

#[test]
fn absorb_error_output_takes_the_caller_s_word() {
    let s = session();
    assert_eq!(s.absorb_error_output("x", true), vec![]);
    assert_eq!(s.absorb_error_output("x", false), vec![log("x", true)]);
    assert_eq!(s.absorb_error_output("x failed", true), vec![log("x failed", true)]);
}

#[test]
fn names_of_phases_and_statuses() {
    assert_eq!(Phase::Downloading.name(), "downloading");
    assert_eq!(Phase::Video.name(), "video");
    assert_eq!(Phase::Audio.name(), "audio");
    assert_eq!(Phase::Merging.name(), "merging");
    assert_eq!(Phase::Processing.name(), "processing");
    assert_eq!(Status::Downloading.name(), "downloading");
    assert_eq!(Status::Completed.name(), "completed");
    assert_eq!(Status::Error.name(), "error");
    assert_eq!(Status::Cancelled.name(), "cancelled");
}

#[test]
fn percentage_above_full_counts_as_full() {
    let mut s = session();
    let events = s.on_output_line("[download] 250.0% of 10.00MiB at 1.00MiB/s ETA 00:05");
    assert_eq!(events, vec![progress(1_000_000, "10.00MiB", "1.00MiB/s", "00:05", Phase::Downloading)]);
    s.on_output_line(DEST_VIDEO);
    let events = s.on_output_line("[download] 250.0% of 10.00MiB at 1.00MiB/s ETA 00:05");
    assert_eq!(events, vec![progress(500_000, "10.00MiB", "1.00MiB/s", "00:05", Phase::Video)]);
}

const MERGE: &str = "[Merger] Merging formats into \"Clip.mp4\"";
const POST: &str = "[Metadata] Adding metadata to \"Clip.mp4\"";

#[test]
fn destination_after_a_merge_marker_keeps_merging() {
    let mut s = session();
    s.on_output_line(DEST_VIDEO);
    s.on_output_line(DEST_AUDIO);
    s.on_output_line(MERGE);
    assert_eq!(s.current_phase, Phase::Merging);
    assert_eq!(s.on_output_line(DEST_VIDEO), vec![title("Clip.f137.mp4"), log(DEST_VIDEO, false)]);
    assert_eq!(s.current_phase, Phase::Merging);
    assert_eq!(s.leg_count, 3);
    assert_eq!(
        s.on_output_line(HALF),
        vec![progress(725_000, "10.00MiB", "1.00MiB/s", "00:05", Phase::Merging)]
    );
}

#[test]
fn destination_after_a_post_processing_marker_keeps_processing() {
    for legs in [0u64, 1, 2] {
        let mut s = session();
        s.leg_count = legs;
        s.on_output_line(POST);
        assert_eq!(s.current_phase, Phase::Processing);
        s.on_output_line(DEST_AUDIO);
        assert_eq!(s.current_phase, Phase::Processing);
        assert_eq!(s.leg_count, legs + 1);
        let events = s.on_output_line(FULL);
        assert_eq!(events.len(), 1);
        assert!(matches!(events[0], SessionEvent::Progress { phase: Phase::Processing, .. }));
    }
}

#[test]
fn named_stream_after_a_marker_changes_nothing() {
    for (marker, phase) in [(MERGE, Phase::Merging), (POST, Phase::Processing)] {
        let mut s = session();
        s.on_output_line(marker);
        s.on_output_line("[info] abc: Downloading 1 video stream");
        assert_eq!(s.current_phase, phase);
        s.on_output_line("[info] abc: Downloading 1 audio stream");
        assert_eq!(s.current_phase, phase);
    }
}

#[test]
fn named_stream_never_moves_the_phase_back() {
    let mut s = session();
    s.on_output_line("[info] abc: Downloading 1 audio stream");
    assert_eq!(s.current_phase, Phase::Audio);
    s.on_output_line("[info] abc: Downloading 1 video stream");
    assert_eq!(s.current_phase, Phase::Audio);
    s.on_output_line(DEST_VIDEO);
    assert_eq!(s.current_phase, Phase::Audio);
    assert_eq!(s.leg_count, 1);
    let mut s = session();
    s.on_output_line("[info] abc: Downloading 1 video stream");
    assert_eq!(s.current_phase, Phase::Video);
    s.on_output_line("[info] abc: Downloading 1 audio stream");
    assert_eq!(s.current_phase, Phase::Audio);
}

#[test]
fn phase_never_falls_back_but_on_a_merge_marker_while_processing() {
    let lines = [
        DEST_VIDEO,
        DEST_AUDIO,
        MERGE,
        POST,
        HALF,
        "[info] abc: Downloading 1 video stream",
        "[info] abc: Downloading 1 audio stream",
        "[youtube] abc: Downloading webpage",
    ];
    let phases =
        [Phase::Downloading, Phase::Video, Phase::Audio, Phase::Merging, Phase::Processing];
    for phase in phases {
        for legs in [0u64, 1, 2, 5] {
            for line in lines {
                let mut s = session();
                s.current_phase = phase;
                s.leg_count = legs;
                s.on_output_line(line);
                if line == MERGE && phase == Phase::Processing {
                    assert_eq!(s.current_phase, Phase::Merging);
                } else {
                    assert!(
                        s.current_phase.rank() >= phase.rank(),
                        "{:?} with {} legs fell back to {:?} on {:?}",
                        phase,
                        legs,
                        s.current_phase,
                        line
                    );
                }
                assert!(s.leg_count >= legs);
            }
        }
    }
}

#[test]
fn a_hint_that_names_no_leg_is_passed_over() {
    let mut s = session();
    let scan = LineScan { stream_hint: Some(Phase::Processing), ..plain_scan() };
    s.absorb_output("x", &scan);
    assert_eq!(s.current_phase, Phase::Downloading);
    let scan = LineScan { stream_hint: Some(Phase::Merging), ..plain_scan() };
    s.absorb_output("x", &scan);
    assert_eq!(s.current_phase, Phase::Downloading);
    s.current_phase = Phase::Audio;
    let scan = LineScan { stream_hint: Some(Phase::Downloading), ..plain_scan() };
    s.absorb_output("x", &scan);
    assert_eq!(s.current_phase, Phase::Audio);
}

#[test]
fn ranks_of_the_phases_ascend() {
    let ranks: Vec<u8> =
        [Phase::Downloading, Phase::Video, Phase::Audio, Phase::Merging, Phase::Processing]
            .iter()
            .map(|p| p.rank())
            .collect();
    assert_eq!(ranks, vec![0, 1, 2, 3, 4]);
}
