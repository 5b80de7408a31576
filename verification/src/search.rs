//! The search pipeline: building the external search invocation and
//! reading its output, one JSON object per line.  Running the tool is the
//! driver's job.

use vstd::prelude::*;
use crate::text::{
    spec_lines, spec_trim, utf8_lossy, utf8_lossy_of, split_lines, trim_str,
};

verus! {

/// One entry of a search answer.
#[derive(Debug)]
pub struct SearchResult {
    pub title: String,
    pub url: String,
    pub id: String,
}

/// Mathematical value of a [`SearchResult`].
pub ghost struct SearchResultView {
    pub title: Seq<char>,
    pub url: Seq<char>,
    pub id: Seq<char>,
}

impl View for SearchResult {
    type V = SearchResultView;

    open spec fn view(&self) -> SearchResultView {
        SearchResultView { title: self.title@, url: self.url@, id: self.id@ }
    }
}

/// Failures of a search job, reported to the job's caller.
#[derive(Debug)]
pub enum SearchError {
    ExecutionError(String),
    JsonParseError(String),
    MissingFields,
}

/// ASCII transliteration of a string, as the transliteration library
/// defines it.
pub uninterp spec fn ascii_fold(s: Seq<char>) -> Seq<char>;

/// Relies on unidecode::unidecode: an ASCII transliteration that depends
/// on the characters alone.  Its documentation promises that the result
/// is ASCII and that every ASCII character maps to itself.
#[verifier::external_body]
fn unidecode_str(s: &str) -> (r: String)
    ensures
        r@ == ascii_fold(s@),
        forall|i: int| 0 <= i < r@.len() ==> (r@[i] as u32) < 128,
        (forall|i: int| 0 <= i < s@.len() ==> (s@[i] as u32) < 128) ==> r@ == s@,
{
    unidecode::unidecode(s)
}

/// Whether the text parses as one JSON value, as serde_json defines it.
pub uninterp spec fn json_line_ok(line: Seq<char>) -> bool;

/// The string field under `key` of the JSON object the line parses to:
/// `None` when the field is absent or not a string.  Meaningful only for
/// lines that parse.
pub uninterp spec fn json_line_field(line: Seq<char>, key: Seq<char>) -> Option<Seq<char>>;

/// Relies on serde_json::from_str to parse one line of tool output, and
/// on serde_json::Value::get and Value::as_str to read one string field
/// of the result: each depends on the line text and the key alone.  A
/// parse failure is carried over as its error text.
#[verifier::external_body]
fn json_line_string_field(line: &str, key: &str) -> (r: Result<Option<String>, String>)
    ensures
        r is Ok <==> json_line_ok(line@),
        r matches Ok(f) ==> f.deep_view() == json_line_field(line@, key@),
{
    match serde_json::from_str::<serde_json::Value>(line) {
        Ok(v) => match v.get(key) {
            Some(f) => match f.as_str() {
                Some(s) => Ok(Some(s.to_owned())),
                None => Ok(None),
            },
            None => Ok(None),
        },
        Err(e) => Err(e.to_string()),
    }
}

/// The search expression handed to the tool: ten results for the
/// transliterated query.
pub open spec fn spec_search_query(q: Seq<char>) -> Seq<char> {
    "ytsearch10:\""@ + ascii_fold(q) + "\""@
}

/// A search job as it sits in the pool's queue.  The driver pairs it with
/// a single-use response channel.
pub enum VideoSearcherActorMessage {
    SearchVideo { query: String },
}

/// A line that carries nothing beyond whitespace.
pub open spec fn spec_is_blank(line: Seq<char>) -> bool {
    spec_trim(line).len() == 0
}

/// The lines that carry anything beyond whitespace, in order.
pub open spec fn spec_nonblank_lines(ls: Seq<Seq<char>>) -> Seq<Seq<char>>
    decreases ls.len(),
{
    if ls.len() == 0 {
        Seq::empty()
    } else if !spec_is_blank(ls.last()) {
        spec_nonblank_lines(ls.drop_last()).push(ls.last())
    } else {
        spec_nonblank_lines(ls.drop_last())
    }
}

/// The line parses as JSON and carries string `title`, `url` and `id`
/// fields.
pub open spec fn spec_line_fields_ok(line: Seq<char>) -> bool {
    &&& json_line_ok(line)
    &&& json_line_field(line, "title"@) is Some
    &&& json_line_field(line, "url"@) is Some
    &&& json_line_field(line, "id"@) is Some
}

/// The answer a fully valid line yields.
pub open spec fn spec_line_result(line: Seq<char>) -> SearchResultView {
    SearchResultView {
        title: json_line_field(line, "title"@).unwrap(),
        url: json_line_field(line, "url"@).unwrap(),
        id: json_line_field(line, "id"@).unwrap(),
    }
}

/// What reading the tool's output yields: one answer per non-blank line,
/// in line order, with that line's fields — or the error of the first
/// non-blank line that is not valid JSON (its parse error) or lacks one
/// of the three fields (`MissingFields`).
pub open spec fn spec_search_parse_outcome(
    stdout: Seq<u8>,
    r: Result<Vec<SearchResult>, SearchError>,
) -> bool {
    let ls = spec_lines(utf8_lossy_of(stdout));
    match r {
        Ok(results) => {
            let nb = spec_nonblank_lines(ls);
            &&& forall|j: int|
                0 <= j < ls.len() && !spec_is_blank(#[trigger] ls[j]) ==> spec_line_fields_ok(
                    ls[j],
                )
            &&& results@.len() == nb.len()
            &&& forall|k: int| 0 <= k < nb.len() ==> (#[trigger] results@[k])@ == spec_line_result(
                nb[k],
            )
        },
        Err(e) => exists|i: int| {
            &&& 0 <= i < ls.len()
            &&& !spec_is_blank(#[trigger] ls[i])
            &&& !spec_line_fields_ok(ls[i])
            &&& forall|j: int|
                0 <= j < i && !spec_is_blank(#[trigger] ls[j]) ==> spec_line_fields_ok(ls[j])
            &&& ((e matches SearchError::JsonParseError(_)) <==> !json_line_ok(ls[i]))
            &&& ((e is MissingFields) <==> json_line_ok(ls[i]))
        },
    }
}

/// Builds the search invocation and reads its answers.  The driver runs
/// the tool between the two calls.
pub struct YtSearcher {}

impl YtSearcher {
    /// The search expression for `query`.
    pub fn build_search_query(&self, query: &str) -> (r: String)
        ensures
            r@ == spec_search_query(query@),
    {
        let mut r = String::from_str("ytsearch10:\"");
        r.append(unidecode_str(query).as_str());
        r.append("\"");
        proof {
            assert(r@ =~= spec_search_query(query@));
        }
        r
    }

    /// The whole search-tool argument list: flat JSON lines, no playlists
    /// or channels, the query last.
    pub fn search_args(&self, query: &str) -> (r: Vec<String>)
        ensures
            r.deep_view() == seq![
                "-j"@,
                "--no-playlist"@,
                "--flat-playlist"@,
                "--match-filter"@,
                "!is_channel"@,
                spec_search_query(query@),
            ],
    {
        let mut args: Vec<String> = Vec::new();
        args.push(String::from_str("-j"));
        args.push(String::from_str("--no-playlist"));
        args.push(String::from_str("--flat-playlist"));
        args.push(String::from_str("--match-filter"));
        args.push(String::from_str("!is_channel"));
        args.push(self.build_search_query(query));
        proof {
            assert(args.deep_view() =~~= seq![
                "-j"@,
                "--no-playlist"@,
                "--flat-playlist"@,
                "--match-filter"@,
                "!is_channel"@,
                spec_search_query(query@),
            ]);
        }
        args
    }

    /// Reads the tool's standard output: every non-blank line must parse
    /// as a JSON object carrying string `title`, `url` and `id` fields,
    /// and yields one answer, in line order; the first non-blank line
    /// that does not stops the search with that line's error.
    pub fn parse_search_output(&self, stdout: &[u8]) -> (r: Result<Vec<SearchResult>, SearchError>)
        ensures
            spec_search_parse_outcome(stdout@, r),
    {
        let decoded = utf8_lossy(stdout);
        let lines = split_lines(decoded.as_str());
        let mut results: Vec<SearchResult> = Vec::new();
        let n = lines.len();
        let ghost lv = lines.deep_view();
        let mut i: usize = 0;
        while i < n
            invariant
                i <= n,
                n == lv.len(),
                lv == lines.deep_view(),
                lv == spec_lines(utf8_lossy_of(stdout@)),
                results@.len() == spec_nonblank_lines(lv.take(i as int)).len(),
                forall|k: int|
                    0 <= k < results@.len() ==> (#[trigger] results@[k])@ == spec_line_result(
                        spec_nonblank_lines(lv.take(i as int))[k],
                    ),
                forall|j: int|
                    0 <= j < i && !spec_is_blank(#[trigger] lv[j]) ==> spec_line_fields_ok(lv[j]),
            decreases n - i,
        {
            let line = &lines[i];
            let trimmed = trim_str(line.as_str());
            proof {
                assert(lv.take(i + 1).drop_last() =~= lv.take(i as int));
                assert(lv.take(i + 1).last() == lv[i as int]);
                assert(lv[i as int] == line@);
            }
            if !trimmed.is_empty() {
                let title = match json_line_string_field(line.as_str(), "title") {
                    Ok(Some(t)) => t,
                    Ok(None) => {
                        return Err(SearchError::MissingFields);
                    },
                    Err(e) => {
                        return Err(SearchError::JsonParseError(e));
                    },
                };
                let url = match json_line_string_field(line.as_str(), "url") {
                    Ok(Some(u)) => u,
                    Ok(None) => {
                        return Err(SearchError::MissingFields);
                    },
                    Err(e) => {
                        return Err(SearchError::JsonParseError(e));
                    },
                };
                let id = match json_line_string_field(line.as_str(), "id") {
                    Ok(Some(d)) => d,
                    Ok(None) => {
                        return Err(SearchError::MissingFields);
                    },
                    Err(e) => {
                        return Err(SearchError::JsonParseError(e));
                    },
                };
                let ghost prev = results@;
                results.push(SearchResult { title, url, id });
                proof {
                    let nb = spec_nonblank_lines(lv.take(i as int));
                    assert(spec_nonblank_lines(lv.take(i + 1)) == nb.push(lv[i as int]));
                    assert(results@[prev.len() as int]@ == spec_line_result(lv[i as int]));
                }
            } else {
                proof {
                    assert(spec_nonblank_lines(lv.take(i + 1)) == spec_nonblank_lines(
                        lv.take(i as int),
                    ));
                }
            }
            i += 1;
        }
        proof {
            assert(lv.take(n as int) =~= lv);
        }
        Ok(results)
    }

    /// The search outcome from what the driver observed of the tool run:
    /// a failure to run the tool at all becomes `ExecutionError` with its
    /// text; otherwise the tool's standard output is read as
    /// [`YtSearcher::parse_search_output`] says.
    pub fn search_outcome(&self, run: Result<Vec<u8>, String>) -> (r: Result<
        Vec<SearchResult>,
        SearchError,
    >)
        ensures
            run matches Err(e) ==> (r matches Err(SearchError::ExecutionError(t)) && t@ == e@),
            run matches Ok(stdout) ==> spec_search_parse_outcome(stdout@, r),
    {
        match run {
            Ok(stdout) => self.parse_search_output(stdout.as_slice()),
            Err(e) => Err(SearchError::ExecutionError(e)),
        }
    }
}

} // verus!
