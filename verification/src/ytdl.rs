//! The external fetch-tool contract: the invocation that obtains the raw
//! media, and the parser for what the tool prints on success — exactly two
//! lines, the output file path and the duration in seconds as a decimal.
//! Running the tool is the driver's job; everything around the process
//! call is verified here.

use vstd::prelude::*;
use vstd::utf8::{valid_utf8, decode_utf8};
use crate::text::{
    all_digits, spec_dec_val, spec_find, spec_lines, spec_rfind, spec_trim, is_first_at,
    utf8_lossy, utf8_lossy_of,
    find_char, parse_u64, rfind_char, split_lines, trim_str, is_digit,
};

verus! {

/// Failures of the fetch/transcode pipeline, reported to the job's caller.
#[derive(Debug)]
pub enum VideoProcessError {
    DownloadError(String),
    FilenameError(String),
    PitchShiftError(String),
    VideoExtractError(String),
    CommandError(String),
    DurationParseError(String),
}

/// A duration in seconds, as the fetch tool prints it: the integer part
/// and whether any fractional part follows.  That is all the pipeline
/// needs to round a segment count upward.
#[derive(Debug, Clone, Copy, PartialEq, Eq, Structural)]
pub struct MediaDuration {
    pub whole: u64,
    pub frac_nonzero: bool,
}

/// Meaning of a printed duration: decimal digits, optionally followed by a
/// point and further digits.
pub open spec fn spec_parse_duration(s: Seq<char>) -> Option<MediaDuration> {
    match spec_find(s, '.') {
        Some(i) => {
            let whole = s.take(i);
            let frac = s.skip(i + 1);
            if whole.len() > 0 && all_digits(whole) && spec_dec_val(whole) <= u64::MAX
                && all_digits(frac) {
                Some(MediaDuration {
                    whole: spec_dec_val(whole) as u64,
                    frac_nonzero: exists|j: int| 0 <= j < frac.len() && frac[j] != '0',
                })
            } else {
                None
            }
        },
        None => {
            if s.len() > 0 && all_digits(s) && spec_dec_val(s) <= u64::MAX {
                Some(MediaDuration { whole: spec_dec_val(s) as u64, frac_nonzero: false })
            } else {
                None
            }
        },
    }
}

/// Parses a printed duration.
pub fn parse_duration(s: &str) -> (r: Option<MediaDuration>)
    ensures
        r == spec_parse_duration(s@),
{
    let len = s.unicode_len();
    let dot = find_char(s, 0, '.');
    proof {
        match dot {
            Some(i) => {
                assert(is_first_at(s@, '.', i as int));
                let w = choose|k: int| is_first_at(s@, '.', k);
                assert(is_first_at(s@, '.', w));
                assert(w == i as int);
                assert(spec_find(s@, '.') == Some(i as int));
            },
            None => {
                assert(spec_find(s@, '.') is None) by {
                    if exists|k: int| is_first_at(s@, '.', k) {
                        let w = choose|k: int| is_first_at(s@, '.', k);
                        assert(s@[w] != '.');
                    }
                }
            },
        }
    }
    match dot {
        Some(i) => {
            let whole_str = s.substring_char(0, i);
            proof {
                assert(whole_str@ =~= s@.take(i as int));
            }
            let whole = match parse_u64(whole_str) {
                Some(v) => v,
                None => { return None; },
            };
            let mut frac_nonzero = false;
            let mut j: usize = i + 1;
            while j < len
                invariant
                    i < j <= len,
                    len == s@.len(),
                    spec_find(s@, '.') == Some(i as int),
                    s@.take(i as int).len() > 0,
                    all_digits(s@.take(i as int)),
                    spec_dec_val(s@.take(i as int)) == whole as int,
                    forall|k: int| i < k < j ==> crate::text::spec_is_digit(s@[k]),
                    frac_nonzero == exists|k: int| i < k < j && s@[k] != '0',
                decreases len - j,
            {
                let c = s.get_char(j);
                if !is_digit(c) {
                    proof {
                        let frac = s@.skip(i + 1);
                        assert(frac[j - i - 1] == s@[j as int]);
                        assert(!all_digits(frac));
                    }
                    return None;
                }
                if c != '0' {
                    frac_nonzero = true;
                }
                j += 1;
            }
            proof {
                let frac = s@.skip(i + 1);
                assert(forall|k: int| 0 <= k < frac.len() ==> frac[k] == s@[k + i + 1]);
                assert(all_digits(frac));
                assert(frac_nonzero == exists|k: int| 0 <= k < frac.len() && frac[k] != '0') by {
                    if frac_nonzero {
                        let w = choose|k: int| i < k < len && s@[k] != '0';
                        assert(frac[w - i - 1] != '0');
                    }
                    if exists|k: int| 0 <= k < frac.len() && frac[k] != '0' {
                        let w = choose|k: int| 0 <= k < frac.len() && frac[k] != '0';
                        assert(s@[w + i + 1] != '0');
                    }
                }
            }
            Some(MediaDuration { whole, frac_nonzero })
        },
        None => {
            match parse_u64(s) {
                Some(v) => Some(MediaDuration { whole: v, frac_nonzero: false }),
                None => None,
            }
        },
    }
}

/// What the fetch tool reports about the file it produced.
#[derive(Debug)]
pub struct VideoMetadata {
    pub directory: String,
    pub filename: String,
    pub extension: String,
    pub duration_seconds: MediaDuration,
}

/// Splits a printed file path into directory, stem and extension: the
/// directory before the last separator, the extension after the last point
/// of the remainder.
pub open spec fn spec_split_media_path(f: Seq<char>) -> Option<(Seq<char>, Seq<char>, Seq<char>)> {
    match spec_rfind(f, '/') {
        None => None,
        Some(i) => {
            let dir = f.take(i);
            let full = f.skip(i + 1);
            match spec_rfind(full, '.') {
                None => None,
                Some(j) => Some((dir, full.take(j), full.skip(j + 1))),
            }
        },
    }
}

/// Relies on core::str::from_utf8 to decode the tool's raw output;
/// vstd's decode_utf8 states what the decoding means.
#[verifier::external_body]
fn utf8_to_string(b: &[u8]) -> (r: Option<String>)
    ensures
        r is Some <==> valid_utf8(b@),
        r matches Some(s) ==> s@ == decode_utf8(b@),
{
    match core::str::from_utf8(b) {
        Ok(s) => Some(s.to_owned()),
        Err(_) => None,
    }
}

/// What reading the tool's standard output yields: the metadata when it
/// holds valid UTF-8, exactly two lines, a decimal duration, and a path
/// with a directory separator and a file extension — else the error of
/// the first missing piece.
pub open spec fn spec_parse_outcome(
    output: Seq<u8>,
    r: Result<VideoMetadata, VideoProcessError>,
) -> bool {
    &&& !valid_utf8(output) ==> (r matches Err(VideoProcessError::FilenameError(_)))
    &&& valid_utf8(output) ==> ({
        let lines = spec_lines(decode_utf8(output));
        &&& lines.len() != 2 ==> (r matches Err(VideoProcessError::FilenameError(_)))
        &&& lines.len() == 2 ==> ({
            let dur = spec_parse_duration(spec_trim(lines[1]));
            let split = spec_split_media_path(spec_trim(lines[0]));
            &&& dur is None ==> (r matches Err(VideoProcessError::DurationParseError(_)))
            &&& (dur is Some && split is None) ==> (r matches Err(
                VideoProcessError::FilenameError(_),
            ))
            &&& (dur is Some && split is Some) ==> (r matches Ok(m)
                && m.directory@ == split.unwrap().0
                && m.filename@ == split.unwrap().1
                && m.extension@ == split.unwrap().2
                && m.duration_seconds == dur.unwrap())
        })
    })
}

/// Invokes nothing itself: the driver runs the fetch tool with
/// [`YtDownloader::download_args`] and hands back what the run yielded,
/// for [`YtDownloader::fetch_outcome`] to judge.
pub struct YtDownloader {}

impl YtDownloader {
    /// The fetch-tool invocation: best streams up to 720p merged into an
    /// MP4 under `base_dir/file_name`, restricted file names, and exactly
    /// the produced file name and the duration printed.
    pub fn download_args(&self, yt_link: &str, base_dir: &str, file_name: &str, ffmpeg_path: &str) -> (r: Vec<String>)
        ensures
            r.deep_view() == spec_download_args(yt_link@, base_dir@, file_name@, ffmpeg_path@),
    {
        let mut template = String::from_str(base_dir);
        template.append("/");
        template.append(file_name);
        template.append("/");
        template.append(file_name);
        template.append(".%(ext)s");
        let mut args: Vec<String> = Vec::new();
        args.push(String::from_str("-f"));
        args.push(String::from_str("bestvideo[height<=720][vcodec^=avc1]+bestaudio"));
        args.push(String::from_str("-o"));
        args.push(template);
        args.push(String::from_str("--merge-output-format"));
        args.push(String::from_str("mp4"));
        args.push(String::from_str("--restrict-filenames"));
        args.push(String::from_str("--print"));
        args.push(String::from_str("filename,duration"));
        args.push(String::from_str("--no-simulate"));
        args.push(String::from_str("--ffmpeg-location"));
        args.push(String::from_str(ffmpeg_path));
        args.push(String::from_str("--"));
        args.push(String::from_str(yt_link));
        proof {
            assert(args.deep_view() =~~= spec_download_args(
                yt_link@,
                base_dir@,
                file_name@,
                ffmpeg_path@,
            ));
        }
        args
    }

    /// Parses the tool's standard output.  Success needs valid UTF-8,
    /// exactly two lines, a decimal duration, and a path with a directory
    /// separator and a file extension; each missing piece is the error the
    /// caller reports.
    pub fn parse_output(&self, output: &[u8]) -> (r: Result<VideoMetadata, VideoProcessError>)
        ensures
            spec_parse_outcome(output@, r),
    {
        let decoded = match utf8_to_string(output) {
            Some(s) => s,
            None => {
                return Err(VideoProcessError::FilenameError(
                    String::from_str("output is not valid UTF-8"),
                ));
            },
        };
        let lines = split_lines(decoded.as_str());
        if lines.len() != 2 {
            return Err(VideoProcessError::FilenameError(
                String::from_str("Expected filename and duration output"),
            ));
        }
        let filename = trim_str(lines[0].as_str());
        let duration_str = trim_str(lines[1].as_str());
        proof {
            assert(lines.deep_view()[0] == lines@[0]@);
            assert(lines.deep_view()[1] == lines@[1]@);
        }
        let duration_seconds = match parse_duration(duration_str) {
            Some(d) => d,
            None => {
                return Err(VideoProcessError::DurationParseError(
                    String::from_str("expected a decimal duration"),
                ));
            },
        };
        let sep = match rfind_char(filename, '/') {
            Some(i) => i,
            None => {
                return Err(VideoProcessError::FilenameError(
                    String::from_str("Invalid path format"),
                ));
            },
        };
        let directory = filename.substring_char(0, sep);
        let flen = filename.unicode_len();
        let full = filename.substring_char(sep + 1, flen);
        proof {
            assert(full@ =~= filename@.skip(sep + 1));
            assert(directory@ =~= filename@.take(sep as int));
        }
        let dot = match rfind_char(full, '.') {
            Some(j) => j,
            None => {
                return Err(VideoProcessError::FilenameError(
                    String::from_str("Invalid filename format"),
                ));
            },
        };
        let stem = full.substring_char(0, dot);
        let fulllen = full.unicode_len();
        let ext = full.substring_char(dot + 1, fulllen);
        proof {
            assert(stem@ =~= full@.take(dot as int));
            assert(ext@ =~= full@.skip(dot + 1));
        }
        Ok(VideoMetadata {
            directory: String::from_str(directory),
            filename: String::from_str(stem),
            extension: String::from_str(ext),
            duration_seconds,
        })
    }

    /// The fetch outcome from what the driver observed of the tool run:
    /// a failure to run the tool at all becomes `CommandError` with its
    /// text; a non-zero exit becomes `DownloadError` carrying the tool's
    /// diagnostics; a clean exit has its standard output read as
    /// [`YtDownloader::parse_output`] says.  `run` carries the exit
    /// success flag, the standard output and the standard error.
    pub fn fetch_outcome(&self, run: Result<(bool, Vec<u8>, Vec<u8>), String>) -> (r: Result<
        VideoMetadata,
        VideoProcessError,
    >)
        ensures
            run matches Err(e) ==> (r matches Err(VideoProcessError::CommandError(t)) && t@
                == e@),
            run matches Ok(o) ==> (!o.0 ==> (r matches Err(VideoProcessError::DownloadError(t))
                && t@ == utf8_lossy_of(o.2@))),
            run matches Ok(o) ==> (o.0 ==> spec_parse_outcome(o.1@, r)),
    {
        match run {
            Ok((success, stdout, stderr)) => {
                if success {
                    self.parse_output(stdout.as_slice())
                } else {
                    Err(VideoProcessError::DownloadError(utf8_lossy(stderr.as_slice())))
                }
            },
            Err(e) => Err(VideoProcessError::CommandError(e)),
        }
    }
}

/// The fetch-tool argument list, as [`YtDownloader::download_args`]
/// assembles it.
pub open spec fn spec_download_args(
    yt_link: Seq<char>,
    base_dir: Seq<char>,
    file_name: Seq<char>,
    ffmpeg_path: Seq<char>,
) -> Seq<Seq<char>> {
    seq![
        "-f"@,
        "bestvideo[height<=720][vcodec^=avc1]+bestaudio"@,
        "-o"@,
        base_dir + "/"@ + file_name + "/"@ + file_name + ".%(ext)s"@,
        "--merge-output-format"@,
        "mp4"@,
        "--restrict-filenames"@,
        "--print"@,
        "filename,duration"@,
        "--no-simulate"@,
        "--ffmpeg-location"@,
        ffmpeg_path,
        "--"@,
        yt_link,
    ]
}

} // verus!
