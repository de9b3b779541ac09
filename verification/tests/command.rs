use dlp_supervisor::command::{
    assemble_arguments, download_arguments, height_limit, metadata_arguments, playlist_arguments,
    StartParams, STAGING_DIR_NAME,
};

fn params(selection: &str, subtitles: bool, accelerated: bool) -> StartParams {
    StartParams {
        tool_path: "/opt/app/ffmpeg.exe".to_string(),
        url: "https://example.org/watch?v=abc".to_string(),
        home_dir: "/home/u/Videos".to_string(),
        staging_dir: "/home/u/Videos/_dlpgui_temp".to_string(),
        selection: selection.to_string(),
        subtitles,
        accelerated,
    }
}

fn common() -> Vec<&'static str> {
    vec![
        "--progress",
        "--newline",
        "--no-update",
        "--no-playlist",
        "--js-runtimes",
        "node",
        "--remote-components",
        "ejs:github",
        "--ffmpeg-location",
        "/opt/app/ffmpeg.exe",
        "--merge-output-format",
        "mp4",
        "--no-keep-fragments",
        "-P",
        "home:/home/u/Videos",
        "-P",
        "temp:/home/u/Videos/_dlpgui_temp",
        "-o",
        "%(title)s.%(ext)s",
    ]
}

#[test]
fn bounded_selection_is_replaced_by_a_sort() {
    let list = download_arguments(&params("(bv*[height<=720]+ba)/b[height<=720]/best", false, false));
    let mut expected = common();
    expected.extend([
        "--extractor-args",
        "youtube:skip=dash",
        "-S",
        "res:720",
        "-f",
        "bv+ba/b",
        "-N",
        "4",
        "https://example.org/watch?v=abc",
    ]);
    assert_eq!(list, expected);
}

#[test]
fn other_selection_is_handed_on() {
    let list = download_arguments(&params("(137+140)/best", false, false));
    let mut expected = common();
    expected.extend([
        "--extractor-args",
        "youtube:skip=dash",
        "-f",
        "(137+140)/best",
        "-N",
        "4",
        "https://example.org/watch?v=abc",
    ]);
    assert_eq!(list, expected);
    let list = download_arguments(&params("ba/b", false, false));
    assert_eq!(list[21..23], ["-f", "ba/b"]);
}

#[test]
fn accelerated_session_with_subtitles() {
    let list = download_arguments(&params("b[height<=1080]", true, true));
    let mut expected = common();
    expected.extend([
        "--extractor-args",
        "youtube:skip=hls",
        "--downloader",
        "aria2c",
        "--downloader-args",
        "aria2c:-x16 -s16 -k1M --file-allocation=none --check-certificate=false",
        "-S",
        "res:1080",
        "-f",
        "bv+ba/b",
        "--write-subs",
        "--write-auto-sub",
        "--embed-subs",
        "--sub-langs",
        "en.*,en,-live_chat",
        "-N",
        "4",
        "https://example.org/watch?v=abc",
    ]);
    assert_eq!(list, expected);
}

#[test]
fn every_session_forbids_update_and_playlist() {
    for accelerated in [false, true] {
        for subtitles in [false, true] {
            let list = download_arguments(&params("x", subtitles, accelerated));
            assert!(list.iter().any(|a| a == "--no-update"));
            assert!(list.iter().any(|a| a == "--no-playlist"));
            assert_eq!(list.last().unwrap(), "https://example.org/watch?v=abc");
            assert_eq!(list.iter().any(|a| a == "aria2c"), accelerated);
            assert_eq!(list.iter().any(|a| a == "--write-subs"), subtitles);
        }
    }
}

#[test]
fn height_limit_is_the_first_bound() {
    assert_eq!(height_limit("(bv*[height<=720]+ba)/b[height<=480]"), Some("720".to_string()));
    assert_eq!(height_limit("height<=1"), Some("1".to_string()));
    assert_eq!(height_limit("(bv*[height=720]+ba)/b[height=720]"), None);
    assert_eq!(height_limit("height<="), None);
    assert_eq!(height_limit("ba/b"), None);
    assert_eq!(height_limit(""), None);
}

#[test]
fn assemble_takes_the_height_it_is_given() {
    let p = params("(137+140)/best", false, false);
    let list = assemble_arguments(&p, &Some("360".to_string()));
    assert_eq!(list[21..25], ["-S", "res:360", "-f", "bv+ba/b"]);
    let list = assemble_arguments(&p, &None);
    assert_eq!(list[21..23], ["-f", "(137+140)/best"]);
}

#[test]
fn metadata_and_playlist_requests() {
    assert_eq!(
        metadata_arguments("https://example.org/v"),
        vec![
            "-J",
            "--no-warnings",
            "--js-runtimes",
            "node",
            "--remote-components",
            "ejs:github",
            "--extractor-args",
            "youtube:skip=dash",
            "https://example.org/v",
        ]
    );
    assert_eq!(
        playlist_arguments("https://example.org/p"),
        vec!["-J", "--flat-playlist", "--no-warnings", "https://example.org/p"]
    );
}

#[test]
fn staging_directory_name() {
    assert_eq!(STAGING_DIR_NAME, "_dlpgui_temp");
}
