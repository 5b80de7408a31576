use pitchperfect::search::{SearchError, YtSearcher};

#[test]
fn search_query_transliterates_to_ascii() {
    let searcher = YtSearcher {};
    assert_eq!(
        searcher.build_search_query("h\u{00e9}llo w\u{00f6}rld"),
        "ytsearch10:\"hello world\""
    );
    assert_eq!(searcher.build_search_query("plain"), "ytsearch10:\"plain\"");
}

#[test]
fn search_args_end_with_the_query() {
    let searcher = YtSearcher {};
    let args = searcher.search_args("abba");
    let expect: Vec<String> = [
        "-j",
        "--no-playlist",
        "--flat-playlist",
        "--match-filter",
        "!is_channel",
        "ytsearch10:\"abba\"",
    ]
    .iter()
    .map(|s| s.to_string())
    .collect();
    assert_eq!(args, expect);
}

#[test]
fn search_output_yields_one_result_per_line() {
    let searcher = YtSearcher {};
    let out = "{\"title\": \"Song A\", \"url\": \"https://example.test/a\", \"id\": \"idA\"}\n\n{\"title\": \"Song B\", \"url\": \"https://example.test/b\", \"id\": \"idB\", \"extra\": 1}\n";
    let results = searcher.parse_search_output(out.as_bytes()).unwrap();
    assert_eq!(results.len(), 2);
    assert_eq!(results[0].title, "Song A");
    assert_eq!(results[0].url, "https://example.test/a");
    assert_eq!(results[0].id, "idA");
    assert_eq!(results[1].id, "idB");
}

#[test]
fn search_output_keeps_non_ascii_titles() {
    let searcher = YtSearcher {};
    let out = "{\"title\": \"Queensr\u{ff}che\", \"url\": \"u\", \"id\": \"i\"}\n";
    let results = searcher.parse_search_output(out.as_bytes()).unwrap();
    assert_eq!(results[0].title, "Queensr\u{ff}che");
}

#[test]
fn search_output_with_empty_lines_only_is_empty() {
    let searcher = YtSearcher {};
    let results = searcher.parse_search_output(b"\n  \n\n").unwrap();
    assert!(results.is_empty());
}

#[test]
fn search_output_missing_a_field_fails() {
    let searcher = YtSearcher {};
    let out = "{\"title\": \"Song A\", \"id\": \"idA\"}\n";
    let err = searcher.parse_search_output(out.as_bytes()).unwrap_err();
    assert!(matches!(err, SearchError::MissingFields));
}

#[test]
fn search_output_with_broken_json_fails() {
    let searcher = YtSearcher {};
    let err = searcher.parse_search_output(b"{not json}\n").unwrap_err();
    assert!(matches!(err, SearchError::JsonParseError(_)));
}

#[test]
fn the_first_failing_line_decides_the_error() {
    let searcher = YtSearcher {};
    // The first non-blank line lacks fields; the second is not JSON at
    // all.  The first failure wins.
    let out = "{\"title\": \"A\"}\n{not json}\n";
    let err = searcher.parse_search_output(out.as_bytes()).unwrap_err();
    assert!(matches!(err, SearchError::MissingFields));

    let out = "{not json}\n{\"title\": \"A\"}\n";
    let err = searcher.parse_search_output(out.as_bytes()).unwrap_err();
    assert!(matches!(err, SearchError::JsonParseError(_)));
}

#[test]
fn a_failed_tool_run_is_an_execution_error() {
    let searcher = YtSearcher {};
    let err = searcher.search_outcome(Err("spawn failed".to_string())).unwrap_err();
    match err {
        SearchError::ExecutionError(msg) => assert_eq!(msg, "spawn failed"),
        other => panic!("unexpected error: {:?}", other),
    }

    let out = b"{\"title\": \"A\", \"url\": \"u\", \"id\": \"i\"}\n".to_vec();
    let results = searcher.search_outcome(Ok(out)).unwrap();
    assert_eq!(results.len(), 1);
    assert_eq!(results[0].title, "A");
}
