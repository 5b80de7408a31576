//! Per-job logic of the download/encode pipeline: the on-disk cache
//! manifest, the cache-hit decision, the segment count, and the state
//! machine a pool worker walks through — check the cache, clear stale
//! output, fetch, write the manifest, transcode.  The driver performs the
//! filesystem and process work and feeds each observation back in; every
//! decision between those steps is made here.

use vstd::prelude::*;
use crate::dash::{mode_wf, ProcessingMode};
use crate::song_queue::QueuedSongStatus;
use crate::ytdl::{MediaDuration, VideoMetadata, VideoProcessError};
use crate::text::{
    spec_dec_digits, spec_is_digit, spec_join_path, spec_zero_pad5,
    lemma_dec_digits_canonical, lemma_dec_digits_props,
    join_path, match_lit, parse_u64, scan_digits, u64_to_dec, u32_zero_pad5,
};

verus! {

/// The cache manifest persisted beside a transcoded asset: how many
/// segments were intended, and whether pitch variants are present.
#[derive(Debug, Clone, Copy, PartialEq, Eq, Structural)]
pub struct VideoStatus {
    pub segments: u32,
    pub is_key_changeable: bool,
}

pub open spec fn manifest_p1() -> Seq<char> {
    "{\n  \"segments\": "@
}

pub open spec fn manifest_p2() -> Seq<char> {
    ",\n  \"is_key_changeable\": "@
}

pub open spec fn manifest_p3() -> Seq<char> {
    "\n}"@
}

pub open spec fn manifest_bool(b: bool) -> Seq<char> {
    if b {
        "true"@
    } else {
        "false"@
    }
}

/// The canonical text of a manifest: a pretty-printed object holding the
/// segment count and the pitch-variant flag.
pub open spec fn spec_render_manifest(m: VideoStatus) -> Seq<char> {
    manifest_p1() + spec_dec_digits(m.segments as nat) + manifest_p2() + manifest_bool(
        m.is_key_changeable,
    ) + manifest_p3()
}

/// Writes the manifest in its canonical text form.
pub fn render_manifest(m: &VideoStatus) -> (r: String)
    ensures
        r@ == spec_render_manifest(*m),
{
    let mut r = String::from_str("{\n  \"segments\": ");
    r.append(u64_to_dec(m.segments as u64).as_str());
    r.append(",\n  \"is_key_changeable\": ");
    if m.is_key_changeable {
        r.append("true");
    } else {
        r.append("false");
    }
    r.append("\n}");
    proof {
        assert(r@ =~= spec_render_manifest(*m));
    }
    r
}

/// Positional facts about the canonical manifest text.
proof fn lemma_manifest_shape(m: VideoStatus)
    ensures
        ({
            let s = spec_render_manifest(m);
            let dd = spec_dec_digits(m.segments as nat);
            let p1l = manifest_p1().len() as int;
            let ddl = dd.len() as int;
            let p2l = manifest_p2().len() as int;
            let bl = manifest_bool(m.is_key_changeable).len() as int;
            let p3l = manifest_p3().len() as int;
            &&& s.len() == p1l + ddl + p2l + bl + p3l
            &&& s.subrange(0, p1l) == manifest_p1()
            &&& s.subrange(p1l, p1l + ddl) == dd
            &&& s.subrange(p1l + ddl, p1l + ddl + p2l) == manifest_p2()
            &&& s.subrange(p1l + ddl + p2l, p1l + ddl + p2l + bl) == manifest_bool(
                m.is_key_changeable,
            )
            &&& s.subrange(p1l + ddl + p2l + bl, s.len() as int) == manifest_p3()
            &&& !spec_is_digit(s[p1l + ddl])
        }),
{
    let s = spec_render_manifest(m);
    let dd = spec_dec_digits(m.segments as nat);
    let p1l = manifest_p1().len() as int;
    let ddl = dd.len() as int;
    let p2l = manifest_p2().len() as int;
    let bl = manifest_bool(m.is_key_changeable).len() as int;
    assert(s.subrange(0, p1l) =~= manifest_p1());
    assert(s.subrange(p1l, p1l + ddl) =~= dd);
    assert(s.subrange(p1l + ddl, p1l + ddl + p2l) =~= manifest_p2());
    assert(s.subrange(p1l + ddl + p2l, p1l + ddl + p2l + bl) =~= manifest_bool(
        m.is_key_changeable,
    ));
    assert(s.subrange(p1l + ddl + p2l + bl, s.len() as int) =~= manifest_p3());
    reveal_strlit(",\n  \"is_key_changeable\": ");
    assert(s[p1l + ddl] == manifest_p2()[0]);
    assert(!spec_is_digit(s[p1l + ddl]));
}

/// Reads a manifest back from text.  Exactly the canonical texts are
/// accepted: `Some(m)` is returned precisely when the text is the
/// canonical rendering of `m`, so any corrupt or foreign spelling reads as
/// no manifest at all.
#[verifier::rlimit(100)]
pub fn parse_manifest(s: &str) -> (r: Option<VideoStatus>)
    ensures
        match r {
            Some(m) => s@ == spec_render_manifest(m),
            None => forall|m: VideoStatus| s@ != spec_render_manifest(m),
        },
{
    let p1 = "{\n  \"segments\": ";
    let p2 = ",\n  \"is_key_changeable\": ";
    let p3 = "\n}";
    let len = s.unicode_len();
    if !match_lit(s, 0, p1) {
        proof {
            assert forall|m: VideoStatus| s@ != spec_render_manifest(m) by {
                if s@ == spec_render_manifest(m) {
                    lemma_manifest_shape(m);
                }
            }
        }
        return None;
    }
    let dstart = p1.unicode_len();
    let dend = scan_digits(s, dstart);
    proof {
        assert forall|m: VideoStatus|
            s@ == spec_render_manifest(m) implies dend as int == manifest_p1().len()
            + spec_dec_digits(m.segments as nat).len() by {
            lemma_manifest_shape(m);
            lemma_dec_digits_props(m.segments as nat);
            let dd = spec_dec_digits(m.segments as nat);
            let p1l = manifest_p1().len() as int;
            let boundary = p1l + dd.len() as int;
            if (dend as int) < boundary {
                assert(s@.subrange(p1l, boundary)[dend - p1l] == s@[dend as int]);
                assert(spec_is_digit(s@[dend as int]));
                assert(false);
            }
            if (dend as int) > boundary {
                assert(spec_is_digit(s@[boundary]));
                assert(false);
            }
        }
    }
    if dend == dstart {
        proof {
            assert forall|m: VideoStatus| s@ != spec_render_manifest(m) by {
                if s@ == spec_render_manifest(m) {
                    lemma_dec_digits_props(m.segments as nat);
                }
            }
        }
        return None;
    }
    if dend - dstart > 1 && s.get_char(dstart) == '0' {
        proof {
            assert forall|m: VideoStatus| s@ != spec_render_manifest(m) by {
                if s@ == spec_render_manifest(m) {
                    lemma_manifest_shape(m);
                    lemma_dec_digits_props(m.segments as nat);
                    let dd = spec_dec_digits(m.segments as nat);
                    let p1l = manifest_p1().len() as int;
                    assert(s@.subrange(p1l, p1l + dd.len() as int)[0] == s@[p1l]);
                    assert(dd[0] == '0');
                }
            }
        }
        return None;
    }
    let digits = s.substring_char(dstart, dend);
    proof {
        assert(digits@ =~= s@.subrange(dstart as int, dend as int));
    }
    let v = match parse_u64(digits) {
        Some(v) => v,
        None => {
            proof {
                assert forall|m: VideoStatus| s@ != spec_render_manifest(m) by {
                    if s@ == spec_render_manifest(m) {
                        lemma_manifest_shape(m);
                        lemma_dec_digits_props(m.segments as nat);
                        let dd = spec_dec_digits(m.segments as nat);
                        let p1l = manifest_p1().len() as int;
                        assert(digits@ =~= dd);
                    }
                }
            }
            return None;
        },
    };
    if v > 0xFFFF_FFFFu64 {
        proof {
            assert forall|m: VideoStatus| s@ != spec_render_manifest(m) by {
                if s@ == spec_render_manifest(m) {
                    lemma_manifest_shape(m);
                    lemma_dec_digits_props(m.segments as nat);
                    let dd = spec_dec_digits(m.segments as nat);
                    let p1l = manifest_p1().len() as int;
                    assert(digits@ =~= dd);
                }
            }
        }
        return None;
    }
    if !match_lit(s, dend, p2) {
        proof {
            assert forall|m: VideoStatus| s@ != spec_render_manifest(m) by {
                if s@ == spec_render_manifest(m) {
                    lemma_manifest_shape(m);
                    lemma_dec_digits_props(m.segments as nat);
                }
            }
        }
        return None;
    }
    let p2len = p2.unicode_len();
    let bpos = dend + p2len;
    let is_true = match_lit(s, bpos, "true");
    let is_false = match_lit(s, bpos, "false");
    if !is_true && !is_false {
        proof {
            assert forall|m: VideoStatus| s@ != spec_render_manifest(m) by {
                if s@ == spec_render_manifest(m) {
                    lemma_manifest_shape(m);
                    lemma_dec_digits_props(m.segments as nat);
                }
            }
        }
        return None;
    }
    let kc = is_true;
    let blen = if is_true {
        "true".unicode_len()
    } else {
        "false".unicode_len()
    };
    let after = bpos + blen;
    if !match_lit(s, after, p3) || after + p3.unicode_len() != len {
        proof {
            assert forall|m: VideoStatus| s@ != spec_render_manifest(m) by {
                if s@ == spec_render_manifest(m) {
                    lemma_manifest_shape(m);
                    lemma_dec_digits_props(m.segments as nat);
                    if m.is_key_changeable != kc {
                        reveal_strlit("true");
                        reveal_strlit("false");
                        let bs = manifest_bool(m.is_key_changeable);
                        let p1l = manifest_p1().len() as int;
                        let dd = spec_dec_digits(m.segments as nat);
                        assert(s@.subrange(bpos as int, bpos + bs.len())[0] == s@[bpos as int]);
                        assert(false);
                    }
                }
            }
        }
        return None;
    }
    let st = VideoStatus { segments: v as u32, is_key_changeable: kc };
    proof {
        lemma_dec_digits_canonical(digits@);
        assert(spec_dec_digits(st.segments as nat) == digits@);
        assert(s@ =~= spec_render_manifest(st));
    }
    Some(st)
}

/// Name of the final media segment a manifest promises: a fixed
/// zero-padded index scheme against which the recorded segment count is
/// checked.
pub open spec fn spec_chunk_name(segments: nat) -> Seq<char> {
    "chunk-stream1-"@ + spec_zero_pad5(segments) + ".m4s"@
}

pub fn chunk_file_name(segments: u32) -> (r: String)
    ensures
        r@ == spec_chunk_name(segments as nat),
{
    let mut r = String::from_str("chunk-stream1-");
    r.append(u32_zero_pad5(segments).as_str());
    r.append(".m4s");
    proof {
        assert(r@ =~= spec_chunk_name(segments as nat));
    }
    r
}

/// Seconds per produced media segment.
pub const SEGMENT_DURATION: u32 = 4;

/// Ceiling of the duration divided by the segment length.
pub open spec fn spec_segment_count(d: MediaDuration, seg: nat) -> nat {
    let base = d.whole as nat / seg;
    if d.whole as nat % seg == 0 && !d.frac_nonzero {
        base
    } else {
        base + 1
    }
}

/// Number of segments a duration needs, saturated at the counter's range.
pub fn segment_count(d: &MediaDuration, segment_duration: u32) -> (r: u32)
    requires
        segment_duration > 0,
    ensures
        ({
            let sc = spec_segment_count(*d, segment_duration as nat);
            if sc > u32::MAX { r == u32::MAX } else { r as nat == sc }
        }),
{
    let seg = segment_duration as u64;
    let base = d.whole / seg;
    if base >= 0xFFFF_FFFFu64 {
        return u32::MAX;
    }
    let exact = d.whole % seg == 0 && !d.frac_nonzero;
    let total = if exact {
        base
    } else {
        base + 1
    };
    total as u32
}

/// The manifest to persist for a fetched asset before transcoding it.
pub fn manifest_for(d: &MediaDuration, is_key_changeable: bool) -> (m: VideoStatus)
    ensures
        m.is_key_changeable == is_key_changeable,
        ({
            let sc = spec_segment_count(*d, SEGMENT_DURATION as nat);
            if sc > u32::MAX { m.segments == u32::MAX } else { m.segments as nat == sc }
        }),
{
    VideoStatus { segments: segment_count(d, SEGMENT_DURATION), is_key_changeable }
}

/// A cached asset without pitch variants cannot satisfy a pitch-changeable
/// request; every cached asset satisfies a plain request.
pub open spec fn spec_cache_compatible(m: VideoStatus, is_key_changeable: bool) -> bool {
    !is_key_changeable || m.is_key_changeable
}

pub fn cache_compatible(m: &VideoStatus, is_key_changeable: bool) -> (r: bool)
    ensures
        r == spec_cache_compatible(*m, is_key_changeable),
{
    !is_key_changeable || m.is_key_changeable
}

/// Reads the manifest text found on disk and decides whether the cached
/// asset can satisfy the request.  `Some` carries the parsed manifest and
/// the name of the final segment whose existence the driver must still
/// check; `None` is already a cache miss.
pub fn cache_chunk_to_check(manifest_text: Option<&String>, is_key_changeable: bool) -> (r: Option<
    (VideoStatus, String),
>)
    ensures
        match r {
            Some(pair) => (manifest_text matches Some(t) && t@ == spec_render_manifest(pair.0)
                && spec_cache_compatible(pair.0, is_key_changeable)
                && pair.1@ == spec_chunk_name(pair.0.segments as nat)),
            None => (match manifest_text {
                Some(t) => forall|m: VideoStatus|
                    t@ == spec_render_manifest(m) ==> !spec_cache_compatible(
                        m,
                        is_key_changeable,
                    ),
                None => true,
            }),
        },
{
    let text = match manifest_text {
        Some(t) => t,
        None => { return None; },
    };
    let status = match parse_manifest(text.as_str()) {
        Some(status) => status,
        None => { return None; },
    };
    if !cache_compatible(&status, is_key_changeable) {
        proof {
            assert forall|m: VideoStatus|
                text@ == spec_render_manifest(m) implies !spec_cache_compatible(
                m,
                is_key_changeable,
            ) by {
                lemma_manifest_injective(status, m, text@);
            }
        }
        return None;
    }
    let chunk = chunk_file_name(status.segments);
    Some((status, chunk))
}

/// Two manifests with the same canonical text are the same manifest.
/// Together with the contract of [`parse_manifest`] this is the round
/// trip: a manifest read back from its own rendering is itself.
pub proof fn lemma_manifest_injective(m1: VideoStatus, m2: VideoStatus, t: Seq<char>)
    requires
        t == spec_render_manifest(m1),
        t == spec_render_manifest(m2),
    ensures
        m1 == m2,
{
    lemma_manifest_shape(m1);
    lemma_manifest_shape(m2);
    lemma_dec_digits_props(m1.segments as nat);
    lemma_dec_digits_props(m2.segments as nat);
    let p1l = manifest_p1().len() as int;
    let dd1 = spec_dec_digits(m1.segments as nat);
    let dd2 = spec_dec_digits(m2.segments as nat);
    let b1 = p1l + dd1.len() as int;
    let b2 = p1l + dd2.len() as int;
    assert(dd1.len() == dd2.len()) by {
        if dd1.len() < dd2.len() {
            assert(t.subrange(p1l, b2)[b1 - p1l] == t[b1]);
            assert(spec_is_digit(t[b1]));
            assert(false);
        }
        if dd1.len() > dd2.len() {
            assert(t.subrange(p1l, b1)[b2 - p1l] == t[b2]);
            assert(spec_is_digit(t[b2]));
            assert(false);
        }
    }
    assert(dd1 == dd2);
    assert(m1.segments == m2.segments);
    assert(m1.is_key_changeable == m2.is_key_changeable) by {
        if m1.is_key_changeable != m2.is_key_changeable {
            reveal_strlit("true");
            reveal_strlit("false");
            let bs1 = manifest_bool(m1.is_key_changeable);
            let bs2 = manifest_bool(m2.is_key_changeable);
            assert(t.subrange(b1 + manifest_p2().len(), b1 + manifest_p2().len() + bs1.len())[0]
                == t[b1 + manifest_p2().len()]);
            assert(t.subrange(b2 + manifest_p2().len(), b2 + manifest_p2().len() + bs2.len())[0]
                == t[b2 + manifest_p2().len()]);
            assert(false);
        }
    }
}

pub open spec fn spec_opt_text(manifest_text: Option<&String>) -> Option<Seq<char>> {
    match manifest_text {
        Some(t) => Some(t@),
        None => None,
    }
}

/// A valid cache hit: a manifest is present and parses, it is compatible
/// with the request, and the expected final segment exists.
pub open spec fn spec_video_exists(
    manifest_text: Option<Seq<char>>,
    is_key_changeable: bool,
    chunk_exists: bool,
) -> bool {
    &&& manifest_text matches Some(t)
    &&& exists|m: VideoStatus|
        t == spec_render_manifest(m) && spec_cache_compatible(m, is_key_changeable)
    &&& chunk_exists
}

/// The cache-hit decision.  `chunk_exists` must report whether the file
/// [`cache_chunk_to_check`] named exists in the asset directory; when that
/// call already answered `None`, any value may be passed.
pub fn video_exists(manifest_text: Option<&String>, is_key_changeable: bool, chunk_exists: bool) -> (r: bool)
    ensures
        r == spec_video_exists(spec_opt_text(manifest_text), is_key_changeable, chunk_exists),
{
    match cache_chunk_to_check(manifest_text, is_key_changeable) {
        Some(pair) => {
            proof {
                let t = spec_opt_text(manifest_text).unwrap();
                assert(t == spec_render_manifest(pair.0) && spec_cache_compatible(
                    pair.0,
                    is_key_changeable,
                ));
            }
            chunk_exists
        },
        None => false,
    }
}

/// Directory a song's assets live in, derived from the song name.
pub fn video_path(base_dir: &str, name: &str) -> (p: String)
    ensures
        p@ == spec_join_path(base_dir@, name@),
{
    join_path(base_dir, name)
}

/// The manifest file inside an asset directory.
pub fn status_file_path(dir: &str) -> (p: String)
    ensures
        p@ == spec_join_path(dir@, "status.json"@),
{
    join_path(dir, "status.json")
}

/// The fetched media file a metadata record points at.
pub open spec fn spec_media_file_path(meta: VideoMetadata) -> Seq<char> {
    meta.directory@ + "/"@ + meta.filename@ + "."@ + meta.extension@
}

pub fn media_file_path(meta: &VideoMetadata) -> (p: String)
    ensures
        p@ == spec_media_file_path(*meta),
{
    let mut p = String::from_str(meta.directory.as_str());
    p.append("/");
    p.append(meta.filename.as_str());
    p.append(".");
    p.append(meta.extension.as_str());
    p
}

/// The streaming manifest the transcode step writes beside the media.
pub open spec fn spec_mpd_file_path(meta: VideoMetadata) -> Seq<char> {
    meta.directory@ + "/"@ + meta.filename@ + ".mpd"@
}

pub fn mpd_file_path(meta: &VideoMetadata) -> (p: String)
    ensures
        p@ == spec_mpd_file_path(*meta),
{
    let mut p = String::from_str(meta.directory.as_str());
    p.append("/");
    p.append(meta.filename.as_str());
    p.append(".mpd");
    p
}

/// Audio treatment for a job: one pitch-shifted stream per supported
/// semitone offset when the song is key-changeable, a single stream
/// otherwise.
pub fn processing_mode_for(is_key_changeable: bool) -> (mode: ProcessingMode)
    ensures
        mode_wf(mode),
        is_key_changeable ==> (mode matches ProcessingMode::PitchShift(s)
            && s@ == seq![-3i32, -2i32, -1i32, 0i32, 1i32, 2i32, 3i32]),
        !is_key_changeable ==> mode is Copy,
{
    if is_key_changeable {
        let mut shifts: Vec<i32> = Vec::new();
        shifts.push(-3);
        shifts.push(-2);
        shifts.push(-1);
        shifts.push(0);
        shifts.push(1);
        shifts.push(2);
        shifts.push(3);
        proof {
            assert(shifts@ =~= seq![-3i32, -2i32, -1i32, 0i32, 1i32, 2i32, 3i32]);
        }
        ProcessingMode::PitchShift(shifts)
    } else {
        ProcessingMode::Copy
    }
}

/// A download job as it sits in the pool's queue.  The driver pairs it
/// with a single-use response channel.
pub enum VideoDlActorMessage {
    DownloadVideo { yt_link: String, name: String, is_key_changeable: bool },
}

/// Where a pipeline job stands.
pub enum PipelineState {
    CheckCache,
    ClearStale,
    Fetch,
    WriteManifest { metadata: VideoMetadata },
    Transcode { metadata: VideoMetadata },
    Done { result: Result<String, VideoProcessError> },
}

/// What the driver observed while performing the current step's outside
/// work.
pub enum PipelineEvent {
    CacheChecked { dir_exists: bool, manifest_text: Option<String>, chunk_exists: bool },
    StaleCleared { ok: bool, message: String },
    Fetched { result: Result<VideoMetadata, VideoProcessError> },
    ManifestWritten { ok: bool, message: String },
    Transcoded { ok: bool, message: String },
}

/// Whether `event` reports the outside work of `state`.
pub open spec fn accepts(state: PipelineState, event: PipelineEvent) -> bool {
    match (state, event) {
        (PipelineState::CheckCache, PipelineEvent::CacheChecked { .. }) => true,
        (PipelineState::ClearStale, PipelineEvent::StaleCleared { .. }) => true,
        (PipelineState::Fetch, PipelineEvent::Fetched { .. }) => true,
        (PipelineState::WriteManifest { .. }, PipelineEvent::ManifestWritten { .. }) => true,
        (PipelineState::Transcode { .. }, PipelineEvent::Transcoded { .. }) => true,
        _ => false,
    }
}

/// One step of the pipeline's state machine: from the state and what the
/// driver observed to the next state.  A valid cache hit finishes the job
/// at once; a stale directory is cleared before fetching; any failure of
/// an outside step finishes the job with the error owed to its caller.
/// An event that does not belong to the state leaves the state unchanged.
pub fn advance(state: PipelineState, event: PipelineEvent, is_key_changeable: bool) -> (next: PipelineState)
    ensures
        !accepts(state, event) ==> next == state,
        state is CheckCache ==> (event matches PipelineEvent::CacheChecked {
            dir_exists,
            manifest_text,
            chunk_exists,
        } ==> {
            let hit = dir_exists && spec_video_exists(
                match manifest_text {
                    Some(t) => Some(t@),
                    None => None,
                },
                is_key_changeable,
                chunk_exists,
            );
            &&& hit ==> (next matches PipelineState::Done { result }
                && result matches Ok(p) && p@ == "success"@)
            &&& !hit && dir_exists ==> next is ClearStale
            &&& !hit && !dir_exists ==> next is Fetch
        }),
        state is ClearStale ==> (event matches PipelineEvent::StaleCleared {
            ok,
            message,
        } ==> {
            &&& ok ==> next is Fetch
            &&& !ok ==> (next matches PipelineState::Done { result }
                && result matches Err(VideoProcessError::PitchShiftError(t))
                && t@ == "Failed to clear existing folder: "@ + message@)
        }),
        state is Fetch ==> (event matches PipelineEvent::Fetched { result } ==> {
            &&& result matches Ok(meta) ==> (next matches PipelineState::WriteManifest {
                metadata,
            } && metadata == meta)
            &&& result matches Err(e) ==> (next matches PipelineState::Done { result: r2 }
                && r2 matches Err(e2) && e2 == e)
        }),
        state matches PipelineState::WriteManifest { metadata } ==> (event
            matches PipelineEvent::ManifestWritten { ok, message } ==> {
            &&& ok ==> (next matches PipelineState::Transcode { metadata: m2 } && m2 == metadata)
            &&& !ok ==> (next matches PipelineState::Done { result }
                && result matches Err(VideoProcessError::PitchShiftError(t))
                && t@ == "Failed to write status file: "@ + message@)
        }),
        state matches PipelineState::Transcode { metadata } ==> (event
            matches PipelineEvent::Transcoded { ok, message } ==> {
            &&& ok ==> (next matches PipelineState::Done { result }
                && result matches Ok(p) && p@ == spec_media_file_path(metadata))
            &&& !ok ==> (next matches PipelineState::Done { result }
                && result matches Err(VideoProcessError::PitchShiftError(t))
                && t@ == "Pitch shift failed: "@ + message@)
        }),
{
    match (state, event) {
        (PipelineState::CheckCache, PipelineEvent::CacheChecked {
            dir_exists,
            manifest_text,
            chunk_exists,
        }) => {
            let hit = dir_exists && video_exists(
                manifest_text.as_ref(),
                is_key_changeable,
                chunk_exists,
            );
            if hit {
                PipelineState::Done { result: Ok(String::from_str("success")) }
            } else if dir_exists {
                PipelineState::ClearStale
            } else {
                PipelineState::Fetch
            }
        },
        (PipelineState::ClearStale, PipelineEvent::StaleCleared { ok, message }) => {
            if ok {
                PipelineState::Fetch
            } else {
                let mut t = String::from_str("Failed to clear existing folder: ");
                t.append(message.as_str());
                PipelineState::Done { result: Err(VideoProcessError::PitchShiftError(t)) }
            }
        },
        (PipelineState::Fetch, PipelineEvent::Fetched { result }) => {
            match result {
                Ok(meta) => PipelineState::WriteManifest { metadata: meta },
                Err(e) => PipelineState::Done { result: Err(e) },
            }
        },
        (PipelineState::WriteManifest { metadata }, PipelineEvent::ManifestWritten {
            ok,
            message,
        }) => {
            if ok {
                PipelineState::Transcode { metadata }
            } else {
                let mut t = String::from_str("Failed to write status file: ");
                t.append(message.as_str());
                PipelineState::Done { result: Err(VideoProcessError::PitchShiftError(t)) }
            }
        },
        (PipelineState::Transcode { metadata }, PipelineEvent::Transcoded { ok, message }) => {
            if ok {
                PipelineState::Done { result: Ok(media_file_path(&metadata)) }
            } else {
                let mut t = String::from_str("Pitch shift failed: ");
                t.append(message.as_str());
                PipelineState::Done { result: Err(VideoProcessError::PitchShiftError(t)) }
            }
        },
        (other_state, _) => other_state,
    }
}

/// The one status update a finished download job owes the queue actor:
/// success marks the song playable, failure marks it failed.
pub fn status_after_download(result: &Result<String, VideoProcessError>) -> (s: QueuedSongStatus)
    ensures
        result is Ok ==> s == QueuedSongStatus::Success,
        result is Err ==> s == QueuedSongStatus::Failed,
{
    match result {
        Ok(_) => QueuedSongStatus::Success,
        Err(_) => QueuedSongStatus::Failed,
    }
}

} // verus!
