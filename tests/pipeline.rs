use parti_dl::batch::{all_finished, batch_urls, begin_item};
use parti_dl::decimal::decimal;
use parti_dl::error::AcqError;
use parti_dl::ident::extract_video_id;
use parti_dl::job::{JobState, Phase, Progress, SegmentStep};
use parti_dl::metadata::{
    api_url, date_token, output_file_name, playback_url, resolve_metadata, ApiField, JsonValue,
};
use parti_dl::playlist::{lines_of, playlist_entries, segment_urls, select_variant};
use parti_dl::sanitize::sanitize_filename;
use parti_dl::transcode::{needs_conversion, transcoder_args};

fn field(key: &str, value: JsonValue) -> ApiField {
    ApiField { key: key.to_string(), value }
}

fn s(text: &str) -> JsonValue {
    JsonValue::Str(text.to_string())
}

#[test]
fn video_id_follows_marker() {
    assert_eq!(extract_video_id("https://parti.com/video/123456").unwrap(), "123456");
    assert_eq!(extract_video_id("https://parti.com/video/98765?x=1").unwrap(), "98765");
}

#[test]
fn video_id_skips_marker_without_digits() {
    assert_eq!(extract_video_id("https://x/video/abc/video/42x").unwrap(), "42");
}

#[test]
fn video_id_missing_marker_is_malformed() {
    assert_eq!(extract_video_id("https://parti.com/live/123"), Err(AcqError::MalformedUrl));
    assert_eq!(extract_video_id("https://parti.com/video/"), Err(AcqError::MalformedUrl));
    assert_eq!(extract_video_id(""), Err(AcqError::MalformedUrl));
}

#[test]
fn sanitize_examples() {
    assert_eq!(sanitize_filename("My Show!"), "My_Show");
    assert_eq!(sanitize_filename("__a--b__"), "a_b");
    assert_eq!(sanitize_filename("  hello   world  "), "hello_world");
    assert_eq!(sanitize_filename(""), "");
    assert_eq!(sanitize_filename("!!!"), "");
    assert_eq!(sanitize_filename("Caf\u{e9} 2"), "Caf\u{e9}_2");
}

#[test]
fn sanitize_is_idempotent() {
    for x in ["My Show!", "__a--b__", "a_b", "x  y__z", "", "___", "2023-11-14 live!"] {
        let once = sanitize_filename(x);
        assert_eq!(sanitize_filename(&once), once);
        assert!(!once.starts_with('_') && !once.ends_with('_'));
        assert!(!once.contains("__"));
        assert!(once.chars().all(|c| c == '_' || c.is_alphanumeric()));
    }
}

#[test]
fn api_url_appends_identifier() {
    assert_eq!(
        api_url("123456"),
        "https://api-backend.parti.com/parti_v2/profile/get_livestream_channel_info/recent/123456"
    );
}

#[test]
fn playback_url_resolution() {
    assert_eq!(playback_url("path/to/pl.m3u8"), "https://watch.parti.com/path/to/pl.m3u8");
    assert_eq!(playback_url("https://cdn.example/pl.m3u8"), "https://cdn.example/pl.m3u8");
}

#[test]
fn date_tokens() {
    assert_eq!(date_token(1700000000), "2023-11-14");
    assert_eq!(date_token(0), "unknown_date");
    assert_eq!(date_token(-5), "unknown_date");
    assert_eq!(date_token(i64::MAX), "unknown_date");
}

#[test]
fn end_to_end_metadata_and_name() {
    let fields = vec![
        field("livestream_recording", s("path/to/pl.m3u8")),
        field("event_title", s("My Show!")),
        field("event_start_ts", JsonValue::Int(1700000000)),
    ];
    let id = extract_video_id("https://parti.com/video/123456").unwrap();
    let m = resolve_metadata(&id, &fields).unwrap();
    assert_eq!(m.video_id, "123456");
    assert_eq!(m.playback_url, "https://watch.parti.com/path/to/pl.m3u8");
    assert_eq!(m.title, "My Show!");
    assert_eq!(m.timestamp, 1700000000);
    assert_eq!(m.date, "2023-11-14");
    assert_eq!(output_file_name(&m.title, &m.date, "ts"), "My_Show_2023-11-14.ts");

    let master = "#EXTM3U\n#EXT-X-STREAM-INF:BANDWIDTH=1\nhigh/playlist.m3u8\n";
    let variant = select_variant(&m.playback_url, master).unwrap();
    assert_eq!(variant, "https://watch.parti.com/path/to/high/playlist.m3u8");
    let body = "#EXTM3U\n#EXTINF:2.0,\na.ts\n#EXTINF:2.0,\nb.ts\n#EXTINF:2.0,\nc.ts\n#EXT-X-ENDLIST\n";
    let segs = segment_urls(&variant, body).unwrap();
    assert_eq!(
        segs,
        vec![
            "https://watch.parti.com/path/to/high/a.ts",
            "https://watch.parti.com/path/to/high/b.ts",
            "https://watch.parti.com/path/to/high/c.ts",
        ]
    );
}

#[test]
fn metadata_alias_priority_and_defaults() {
    let fields = vec![field("recording_url", s("https://a/r.m3u8")), field("playback_url", s("p.m3u8"))];
    let m = resolve_metadata("1", &fields).unwrap();
    assert_eq!(m.playback_url, "https://watch.parti.com/p.m3u8");
    assert_eq!(m.title, "parti_video");
    assert_eq!(m.timestamp, 0);
    assert_eq!(m.date, "unknown_date");
    assert_eq!(output_file_name(&m.title, &m.date, "mp4"), "parti_video_unknown_date.mp4");
}

#[test]
fn metadata_present_alias_not_string_fails() {
    let fields = vec![field("livestream_recording", JsonValue::Other), field("playback_url", s("p.m3u8"))];
    assert_eq!(resolve_metadata("1", &fields).unwrap_err(), AcqError::MissingPlaybackReference);
}

#[test]
fn missing_playback_reference_scenario() {
    let fields = vec![field("event_title", s("x")), field("event_start_ts", JsonValue::Int(5))];
    let e = resolve_metadata("1", &fields).unwrap_err();
    assert_eq!(e, AcqError::MissingPlaybackReference);
    let mut job = JobState::new();
    job.start();
    job.fail(e.message());
    assert!(job.status.contains("Could not find a video playlist field"));
    assert!(job.is_finished());
    assert_eq!(job.phase, Phase::Failed);
}

#[test]
fn variant_selection_first_or_master() {
    let master_url = "https://h.example/v/master.m3u8";
    let two = "a/playlist.m3u8\n  https://other.example/b/playlist.m3u8  \n";
    assert_eq!(select_variant(master_url, two).unwrap(), "https://h.example/v/a/playlist.m3u8");
    let abs_first = "https://other.example/b/playlist.m3u8\r\na/playlist.m3u8\n";
    assert_eq!(select_variant(master_url, abs_first).unwrap(), "https://other.example/b/playlist.m3u8");
    assert_eq!(select_variant(master_url, "#EXTM3U\nseg.ts\n").unwrap(), master_url);
    assert_eq!(select_variant(master_url, "").unwrap(), master_url);
}

#[test]
fn variant_selection_unresolvable_entry() {
    assert_eq!(select_variant("not a url", "x/playlist.m3u8\n"), Err(AcqError::PlaylistFetchFailed));
    assert_eq!(select_variant("not a url", "http://a/playlist.m3u8\n").unwrap(), "http://a/playlist.m3u8");
}

#[test]
fn segment_order_follows_lines() {
    let base = "https://h/v/playlist.m3u8";
    let fwd = segment_urls(base, "a.ts\nb.ts\nc.ts").unwrap();
    let rev = segment_urls(base, "c.ts\nb.ts\na.ts").unwrap();
    assert_eq!(fwd, vec!["https://h/v/a.ts", "https://h/v/b.ts", "https://h/v/c.ts"]);
    assert_eq!(rev, vec!["https://h/v/c.ts", "https://h/v/b.ts", "https://h/v/a.ts"]);
    assert_ne!(fwd, rev);
}

#[test]
fn segment_list_errors() {
    assert_eq!(segment_urls("https://h/p.m3u8", "  \n\t\n"), Err(AcqError::EmptyPlaylist));
    assert_eq!(segment_urls("https://h/p.m3u8", ""), Err(AcqError::EmptyPlaylist));
    assert_eq!(segment_urls("relative/p.m3u8", "a.ts\n"), Err(AcqError::PlaylistFetchFailed));
    assert_eq!(segment_urls("https://h/p.m3u8", "#EXTM3U\n").unwrap(), Vec::<String>::new());
}

#[test]
fn lines_and_entries() {
    assert_eq!(lines_of("a\nb\n"), vec!["a", "b", ""]);
    assert_eq!(lines_of(""), vec![""]);
    assert_eq!(
        playlist_entries("https://h/x/", " a.ts \nb.txt\nhttp://z/c.ts", ".ts").unwrap(),
        vec!["https://h/x/a.ts", "http://z/c.ts"]
    );
}

fn run(job: &mut JobState, n: usize, abort_at: Option<usize>) -> (Vec<usize>, Vec<Progress>) {
    let mut fetched = Vec::new();
    let mut seen = vec![job.progress];
    job.segments_listed(n);
    seen.push(job.progress);
    loop {
        let aborted = abort_at == Some(fetched.len());
        match job.next_segment(aborted) {
            SegmentStep::Fetch(i) => {
                seen.push(job.progress);
                fetched.push(i);
                job.segment_written();
            }
            SegmentStep::Stop => {
                seen.push(job.progress);
                break;
            }
            SegmentStep::Complete => {
                job.download_complete("out/My_Show_2023-11-14.ts");
                seen.push(job.progress);
                break;
            }
        }
    }
    (fetched, seen)
}

fn ready_job() -> JobState {
    let mut job = JobState::new();
    job.start();
    job.metadata_resolved("My Show!");
    assert_eq!(job.status, "Fetching playlist for 'My Show!'");
    job.variant_selected("My Show!");
    assert_eq!(job.status, "Fetching segments for 'My Show!'");
    job
}

fn as_f64(p: &Progress) -> f64 {
    p.done as f64 / p.total as f64
}

#[test]
fn successful_run_progress() {
    let mut job = ready_job();
    let (fetched, seen) = run(&mut job, 3, None);
    assert_eq!(fetched, vec![0, 1, 2]);
    let values: Vec<f64> = seen.iter().map(as_f64).collect();
    assert!(values.windows(2).all(|w| w[0] <= w[1]));
    assert_eq!(*values.last().unwrap(), 1.0);
    assert_eq!(job.phase, Phase::Succeeded);
    assert_eq!(job.status, "Saved to out/My_Show_2023-11-14.ts");
}

#[test]
fn status_texts_during_download() {
    let mut job = ready_job();
    job.segments_listed(12);
    assert_eq!(job.status, "Downloading 12 segments...");
    assert_eq!(job.next_segment(false), SegmentStep::Fetch(0));
    assert_eq!(job.status, "Downloading segment 1/12...");
    assert_eq!(job.progress, Progress { done: 1, total: 12 });
}

#[test]
fn abort_before_first_segment() {
    let mut job = ready_job();
    let (fetched, _) = run(&mut job, 3, Some(0));
    assert!(fetched.is_empty());
    assert_eq!(job.phase, Phase::Aborted);
    assert_eq!(job.status, "Aborted by user.");
    assert!(job.is_finished());
}

#[test]
fn abort_mid_stream_keeps_prefix() {
    let mut job = ready_job();
    let (fetched, _) = run(&mut job, 5, Some(2));
    assert_eq!(fetched, vec![0, 1]);
    assert_eq!(job.fetched, 2);
    assert_eq!(job.phase, Phase::Aborted);
    assert!(job.is_finished());
}

#[test]
fn empty_segment_list_completes() {
    let mut job = ready_job();
    let (fetched, seen) = run(&mut job, 0, None);
    assert!(fetched.is_empty());
    assert_eq!(as_f64(seen.last().unwrap()), 1.0);
}

#[test]
fn failure_mid_stream_finishes_job() {
    let mut job = ready_job();
    job.segments_listed(4);
    assert_eq!(job.next_segment(false), SegmentStep::Fetch(0));
    job.fail("connection reset");
    assert_eq!(job.status, "Error: connection reset");
    assert_eq!(job.phase, Phase::Failed);
    assert!(job.is_finished());
}

#[test]
fn conversion_outcomes() {
    assert!(needs_conversion("mp3"));
    assert!(!needs_conversion("ts"));
    let raw = output_file_name("My Show!", "2023-11-14", "ts");
    let mp3 = output_file_name("My Show!", "2023-11-14", "mp3");
    assert_eq!(raw, "My_Show_2023-11-14.ts");
    assert_eq!(mp3, "My_Show_2023-11-14.mp3");

    let mut job = ready_job();
    run(&mut job, 3, None);
    job.conversion_started("mp3");
    assert_eq!(job.status, "Converting to mp3...");
    job.conversion_finished(Ok(&mp3));
    assert_eq!(job.status, "Saved to My_Show_2023-11-14.mp3");
    assert_eq!(job.phase, Phase::Succeeded);

    let mut job = ready_job();
    run(&mut job, 3, None);
    job.conversion_started("mp3");
    job.conversion_finished(Err("ffmpeg failed: bad input"));
    assert!(job.status.contains("Conversion failed"));
    assert!(job.is_finished());
}

#[test]
fn transcoder_arguments() {
    assert_eq!(
        transcoder_args("in.ts", "out.mp3", "mp3"),
        vec!["-y", "-i", "in.ts", "-vn", "-acodec", "libmp3lame", "out.mp3"]
    );
    assert_eq!(
        transcoder_args("in.ts", "out.wav", "wav"),
        vec!["-y", "-i", "in.ts", "-vn", "-acodec", "pcm_s16le", "out.wav"]
    );
    assert_eq!(transcoder_args("in.ts", "out.mp4", "mp4"), vec!["-y", "-i", "in.ts", "out.mp4"]);
}

#[test]
fn decimal_text() {
    assert_eq!(decimal(0), "0");
    assert_eq!(decimal(7), "7");
    assert_eq!(decimal(1200), "1200");
    assert_eq!(decimal(usize::MAX), usize::MAX.to_string());
}

#[test]
fn batch_list_and_abort() {
    let urls = batch_urls("https://parti.com/video/1\r\n\n   \nhttps://parti.com/video/2\n");
    assert_eq!(urls, vec!["https://parti.com/video/1", "https://parti.com/video/2"]);
    assert!(batch_urls("").is_empty());

    let mut jobs = vec![JobState::new(), JobState::new()];
    assert!(!all_finished(&jobs));
    assert!(begin_item(&mut jobs[0], false));
    assert_eq!(jobs[0].status, "Starting...");
    jobs[0].fail("boom");
    assert!(!begin_item(&mut jobs[1], true));
    assert_eq!(jobs[1].status, "Aborted by user.");
    assert!(all_finished(&jobs));
    assert!(all_finished(&Vec::new()));
}

#[test]
fn error_messages() {
    assert_eq!(AcqError::EmptyPlaylist.message(), "Variant playlist is empty or not found.");
    assert_eq!(AcqError::MalformedUrl.message(), "Could not extract video ID from URL");
}
