use pitchperfect::pipeline::{
    advance, cache_chunk_to_check, chunk_file_name, manifest_for, parse_manifest,
    render_manifest, segment_count, status_after_download, status_file_path, video_exists,
    video_path, PipelineEvent, PipelineState, VideoStatus, SEGMENT_DURATION,
};
use pitchperfect::song_queue::QueuedSongStatus;
use pitchperfect::ytdl::{MediaDuration, VideoMetadata, VideoProcessError, YtDownloader};

fn duration(whole: u64, frac_nonzero: bool) -> MediaDuration {
    MediaDuration { whole, frac_nonzero }
}

#[test]
fn manifest_renders_canonical_text() {
    let m = VideoStatus { segments: 3, is_key_changeable: true };
    assert_eq!(
        render_manifest(&m),
        "{\n  \"segments\": 3,\n  \"is_key_changeable\": true\n}"
    );
    let m = VideoStatus { segments: 120, is_key_changeable: false };
    assert_eq!(
        render_manifest(&m),
        "{\n  \"segments\": 120,\n  \"is_key_changeable\": false\n}"
    );
}

#[test]
fn manifest_round_trips() {
    for segments in [0u32, 1, 9, 10, 99999, 100000, u32::MAX] {
        for kc in [false, true] {
            let m = VideoStatus { segments, is_key_changeable: kc };
            assert_eq!(parse_manifest(&render_manifest(&m)), Some(m));
        }
    }
}

#[test]
fn manifest_rejects_non_canonical_text() {
    assert_eq!(parse_manifest(""), None);
    assert_eq!(parse_manifest("{}"), None);
    assert_eq!(parse_manifest("{\n  \"segments\": 007,\n  \"is_key_changeable\": true\n}"), None);
    assert_eq!(parse_manifest("{\n  \"segments\": ,\n  \"is_key_changeable\": true\n}"), None);
    assert_eq!(parse_manifest("{\n  \"segments\": 3,\n  \"is_key_changeable\": yes\n}"), None);
    assert_eq!(parse_manifest("{\n  \"segments\": 3,\n  \"is_key_changeable\": true\n} "), None);
    assert_eq!(
        parse_manifest("{\n  \"segments\": 4294967296,\n  \"is_key_changeable\": true\n}"),
        None
    );
}

#[test]
fn cache_hit_needs_compatibility_and_the_final_segment() {
    let text = render_manifest(&VideoStatus { segments: 3, is_key_changeable: true });

    // A plain request is satisfied by a pitch-capable cached asset.
    let (status, chunk) = cache_chunk_to_check(Some(&text), false).unwrap();
    assert_eq!(status.segments, 3);
    assert_eq!(chunk, "chunk-stream1-00003.m4s");
    assert!(video_exists(Some(&text), false, true));
    assert!(!video_exists(Some(&text), false, false));

    // A pitch-changeable request is not satisfied by a plain cached asset.
    let plain = render_manifest(&VideoStatus { segments: 3, is_key_changeable: false });
    assert!(cache_chunk_to_check(Some(&plain), true).is_none());
    assert!(!video_exists(Some(&plain), true, true));

    // No manifest, or one that does not parse, is a miss.
    assert!(!video_exists(None, false, true));
    let corrupt = "{\"segments\": 3}".to_string();
    assert!(!video_exists(Some(&corrupt), false, true));
}

#[test]
fn segment_count_rounds_upward() {
    assert_eq!(segment_count(&duration(8, false), 4), 2);
    assert_eq!(segment_count(&duration(10, false), 4), 3);
    assert_eq!(segment_count(&duration(8, true), 4), 3);
    assert_eq!(segment_count(&duration(0, false), 4), 0);
    assert_eq!(segment_count(&duration(0, true), 4), 1);
    assert_eq!(segment_count(&duration(u64::MAX, false), 1), u32::MAX);
}

#[test]
fn manifest_for_uses_the_fixed_segment_duration() {
    assert_eq!(SEGMENT_DURATION, 4);
    let m = manifest_for(&duration(10, false), true);
    assert_eq!(m.segments, 3);
    assert!(m.is_key_changeable);
}

#[test]
fn chunk_names_are_zero_padded() {
    assert_eq!(chunk_file_name(7), "chunk-stream1-00007.m4s");
    assert_eq!(chunk_file_name(123456), "chunk-stream1-123456.m4s");
}

#[test]
fn asset_paths_join_as_expected() {
    assert_eq!(video_path("./assets", "song"), "./assets/song");
    assert_eq!(status_file_path("./assets/song"), "./assets/song/status.json");
}

fn meta() -> VideoMetadata {
    VideoMetadata {
        directory: "./assets/song".to_string(),
        filename: "song".to_string(),
        extension: "mp4".to_string(),
        duration_seconds: duration(10, false),
    }
}

#[test]
fn pipeline_walks_the_miss_path() {
    let state = PipelineState::CheckCache;
    let state = advance(
        state,
        PipelineEvent::CacheChecked { dir_exists: false, manifest_text: None, chunk_exists: false },
        false,
    );
    assert!(matches!(state, PipelineState::Fetch));

    let state = advance(state, PipelineEvent::Fetched { result: Ok(meta()) }, false);
    assert!(matches!(state, PipelineState::WriteManifest { .. }));

    let state = advance(
        state,
        PipelineEvent::ManifestWritten { ok: true, message: String::new() },
        false,
    );
    assert!(matches!(state, PipelineState::Transcode { .. }));

    let state = advance(state, PipelineEvent::Transcoded { ok: true, message: String::new() }, false);
    match state {
        PipelineState::Done { result } => assert_eq!(result.unwrap(), "./assets/song/song.mp4"),
        _ => panic!("expected the job to finish"),
    }
}

#[test]
fn pipeline_finishes_at_once_on_a_cache_hit() {
    let text = render_manifest(&VideoStatus { segments: 3, is_key_changeable: true });
    let state = advance(
        PipelineState::CheckCache,
        PipelineEvent::CacheChecked {
            dir_exists: true,
            manifest_text: Some(text),
            chunk_exists: true,
        },
        false,
    );
    match state {
        PipelineState::Done { result } => assert_eq!(result.unwrap(), "success"),
        _ => panic!("expected the job to finish"),
    }
}

#[test]
fn pipeline_clears_a_stale_directory() {
    let state = advance(
        PipelineState::CheckCache,
        PipelineEvent::CacheChecked { dir_exists: true, manifest_text: None, chunk_exists: false },
        true,
    );
    assert!(matches!(state, PipelineState::ClearStale));

    let state = advance(
        state,
        PipelineEvent::StaleCleared { ok: false, message: "permission denied".to_string() },
        true,
    );
    match state {
        PipelineState::Done { result } => match result.unwrap_err() {
            VideoProcessError::PitchShiftError(msg) => {
                assert_eq!(msg, "Failed to clear existing folder: permission denied")
            }
            other => panic!("unexpected error: {:?}", other),
        },
        _ => panic!("expected the job to finish"),
    }
}

#[test]
fn download_outcome_decides_the_status_update() {
    assert_eq!(status_after_download(&Ok("p".to_string())), QueuedSongStatus::Success);
    assert_eq!(
        status_after_download(&Err(VideoProcessError::DownloadError("x".to_string()))),
        QueuedSongStatus::Failed
    );
}

#[test]
fn parse_output_reads_path_and_duration() {
    let downloader = YtDownloader {};
    let out = b"./assets/song/song.mp4\n123.5\n";
    let m = downloader.parse_output(out).unwrap();
    assert_eq!(m.directory, "./assets/song");
    assert_eq!(m.filename, "song");
    assert_eq!(m.extension, "mp4");
    assert_eq!(m.duration_seconds, duration(123, true));

    let out = b"./a/b.webm\n80\n";
    let m = downloader.parse_output(out).unwrap();
    assert_eq!(m.extension, "webm");
    assert_eq!(m.duration_seconds, duration(80, false));

    let out = b"./a/b.mp4\n5.\n";
    let m = downloader.parse_output(out).unwrap();
    assert_eq!(m.duration_seconds, duration(5, false));

    let out = b"./a/b.mp4\n5.000\n";
    let m = downloader.parse_output(out).unwrap();
    assert_eq!(m.duration_seconds, duration(5, false));
}

#[test]
fn pipeline_ignores_an_event_of_the_wrong_step() {
    let state = advance(
        PipelineState::Fetch,
        PipelineEvent::StaleCleared { ok: true, message: String::new() },
        false,
    );
    assert!(matches!(state, PipelineState::Fetch));
}

#[test]
fn parse_output_keeps_non_ascii_path_characters() {
    let downloader = YtDownloader {};
    let out = "./mus\u{00e9}e/ch\u{00e2}teau.mp4\n9.0\n".as_bytes();
    let m = downloader.parse_output(out).unwrap();
    assert_eq!(m.directory, "./mus\u{00e9}e");
    assert_eq!(m.filename, "ch\u{00e2}teau");
    assert_eq!(m.duration_seconds, duration(9, false));
}

#[test]
fn parse_output_rejects_malformed_output() {
    let downloader = YtDownloader {};
    assert!(matches!(
        downloader.parse_output(b"only-one-line\n"),
        Err(VideoProcessError::FilenameError(_))
    ));
    assert!(matches!(
        downloader.parse_output(b"./a/b.mp4\nnot-a-number\n"),
        Err(VideoProcessError::DurationParseError(_))
    ));
    assert!(matches!(
        downloader.parse_output(b"no-separator.mp4\n10\n"),
        Err(VideoProcessError::FilenameError(_))
    ));
    assert!(matches!(
        downloader.parse_output(b"./a/no-extension\n10\n"),
        Err(VideoProcessError::FilenameError(_))
    ));
    assert!(matches!(
        downloader.parse_output(&[0xff, 0xfe, b'\n', b'1', b'\n']),
        Err(VideoProcessError::FilenameError(_))
    ));
}

#[test]
fn fetch_outcome_judges_the_tool_run() {
    let downloader = YtDownloader {};

    let err = downloader.fetch_outcome(Err("spawn failed".to_string())).unwrap_err();
    match err {
        VideoProcessError::CommandError(msg) => assert_eq!(msg, "spawn failed"),
        other => panic!("unexpected error: {:?}", other),
    }

    let err = downloader
        .fetch_outcome(Ok((false, Vec::new(), b"boom".to_vec())))
        .unwrap_err();
    match err {
        VideoProcessError::DownloadError(msg) => assert_eq!(msg, "boom"),
        other => panic!("unexpected error: {:?}", other),
    }

    let stdout = b"./a/b.mp4\n12.5\n".to_vec();
    let m = downloader.fetch_outcome(Ok((true, stdout, Vec::new()))).unwrap();
    assert_eq!(m.filename, "b");
    assert_eq!(m.duration_seconds, duration(12, true));
}

#[test]
fn download_args_name_the_template_and_link() {
    let downloader = YtDownloader {};
    let args = downloader.download_args("https://example.test/v", "./assets", "song", "/cfg/ffmpeg");
    let expect: Vec<String> = [
        "-f",
        "bestvideo[height<=720][vcodec^=avc1]+bestaudio",
        "-o",
        "./assets/song/song.%(ext)s",
        "--merge-output-format",
        "mp4",
        "--restrict-filenames",
        "--print",
        "filename,duration",
        "--no-simulate",
        "--ffmpeg-location",
        "/cfg/ffmpeg",
        "--",
        "https://example.test/v",
    ]
    .iter()
    .map(|s| s.to_string())
    .collect();
    assert_eq!(args, expect);
}
