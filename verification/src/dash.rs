//! Builders for the external transcode-tool invocation: the filter graph,
//! the stream mappings, the audio encodings and the adaptation sets that
//! turn one input file into segmented streams.  In copy mode a single
//! normalized audio stream is paired with the video; in pitch-shift mode
//! the audio is split into one stream per semitone offset, each shifted,
//! normalized and encoded on its own so that a client can switch key by
//! selecting another adaptation set.

use vstd::prelude::*;
use crate::text::{spec_dec_digits, u64_to_dec};

verus! {

/// How the transcode tool treats the audio.
#[derive(Debug)]
pub enum ProcessingMode {
    Copy,
    PitchShift(Vec<i32>),
}

/// Every semitone offset handed to the tool comes from the fixed supported
/// list.
pub open spec fn mode_wf(mode: ProcessingMode) -> bool {
    match mode {
        ProcessingMode::Copy => true,
        ProcessingMode::PitchShift(shifts) => forall|i: int|
            0 <= i < shifts@.len() ==> -3 <= #[trigger] shifts@[i] <= 3,
    }
}

/// Frequency ratio of a pitch shift by `semitones`, that is 2 raised to
/// `semitones / 12`, rendered as the shortest decimal that reads back to
/// the same binary value.
pub open spec fn spec_pitch_ratio(semitones: int) -> Seq<char> {
    if semitones == -3 { "0.8408964152537145"@ }
    else if semitones == -2 { "0.8908987181403393"@ }
    else if semitones == -1 { "0.9438743126816935"@ }
    else if semitones == 1 { "1.0594630943592953"@ }
    else if semitones == 2 { "1.122462048309373"@ }
    else if semitones == 3 { "1.189207115002721"@ }
    else { "1"@ }
}

fn pitch_ratio_str(semitones: i32) -> (r: &'static str)
    requires
        -3 <= semitones <= 3,
    ensures
        r@ == spec_pitch_ratio(semitones as int),
{
    if semitones == -3 { "0.8408964152537145" }
    else if semitones == -2 { "0.8908987181403393" }
    else if semitones == -1 { "0.9438743126816935" }
    else if semitones == 1 { "1.0594630943592953" }
    else if semitones == 2 { "1.122462048309373" }
    else if semitones == 3 { "1.189207115002721" }
    else { "1" }
}

/// The split labels `[a0][a1]...` up to stream `k`.
pub open spec fn spec_split_labels(k: int) -> Seq<char>
    decreases k,
{
    if k <= 0 {
        Seq::empty()
    } else {
        spec_split_labels(k - 1) + "[a"@ + spec_dec_digits((k - 1) as nat) + "]"@
    }
}

/// The filter step of stream `i`: shift its pitch, then normalize its
/// loudness.
pub open spec fn spec_pitch_segment(shifts: Seq<i32>, i: int) -> Seq<char> {
    " [a"@ + spec_dec_digits(i as nat) + "]rubberband=pitch="@ + spec_pitch_ratio(shifts[i] as int)
        + ",loudnorm=I=-16:TP=-1.5:LRA=11[p"@ + spec_dec_digits(i as nat) + "]"@
}

/// The first `k` filter steps, separated by semicolons.
pub open spec fn spec_pitch_chain(shifts: Seq<i32>, k: int) -> Seq<char>
    decreases k,
{
    if k <= 0 {
        Seq::empty()
    } else if k == 1 {
        spec_pitch_segment(shifts, 0)
    } else {
        spec_pitch_chain(shifts, k - 1) + ";"@ + spec_pitch_segment(shifts, k - 1)
    }
}

/// The whole filter graph for `mode`.
pub open spec fn spec_filter_complex(mode: ProcessingMode) -> Seq<char> {
    match mode {
        ProcessingMode::Copy => "[0:a]loudnorm=I=-16:TP=-1.5:LRA=11[normalized]"@,
        ProcessingMode::PitchShift(shifts) => {
            let n = shifts@.len() as int;
            "[0:a]asplit="@ + spec_dec_digits(n as nat) + spec_split_labels(n) + (if n == 0 {
                Seq::<char>::empty()
            } else {
                ";"@ + spec_pitch_chain(shifts@, n)
            })
        },
    }
}

/// One adaptation-set entry past the video set.
pub open spec fn spec_adaptation_entry(i: int) -> Seq<char> {
    " id="@ + spec_dec_digits((i + 1) as nat) + ",streams="@ + spec_dec_digits((i + 1) as nat)
}

pub open spec fn spec_adaptation_chain(k: int) -> Seq<char>
    decreases k,
{
    if k <= 0 {
        Seq::empty()
    } else {
        spec_adaptation_chain(k - 1) + spec_adaptation_entry(k - 1)
    }
}

/// The adaptation sets for `mode`: the video set, then one set per audio
/// variant.
pub open spec fn spec_adaptation_sets(mode: ProcessingMode) -> Seq<char> {
    match mode {
        ProcessingMode::Copy => "id=0,streams=0 id=1,streams=1"@,
        ProcessingMode::PitchShift(shifts) => "id=0,streams=0"@ + spec_adaptation_chain(
            shifts@.len() as int,
        ),
    }
}

pub open spec fn spec_mapping_chain(k: int) -> Seq<Seq<char>>
    decreases k,
{
    if k <= 0 {
        Seq::empty()
    } else {
        spec_mapping_chain(k - 1) + seq!["-map"@, "[p"@ + spec_dec_digits((k - 1) as nat) + "]"@]
    }
}

/// The stream mappings for `mode`: the video stream, then each filtered
/// audio stream.
pub open spec fn spec_stream_mappings(mode: ProcessingMode) -> Seq<Seq<char>> {
    match mode {
        ProcessingMode::Copy => seq!["-map"@, "0:v"@, "-map"@, "[normalized]"@],
        ProcessingMode::PitchShift(shifts) => seq!["-map"@, "0:v"@] + spec_mapping_chain(
            shifts@.len() as int,
        ),
    }
}

pub open spec fn spec_encoding_chain(k: int) -> Seq<Seq<char>>
    decreases k,
{
    if k <= 0 {
        Seq::empty()
    } else {
        spec_encoding_chain(k - 1) + seq![
            "-c:a:"@ + spec_dec_digits((k - 1) as nat),
            "aac"@,
            "-b:a:"@ + spec_dec_digits((k - 1) as nat),
            "128k"@,
        ]
    }
}

/// The audio encoder settings for `mode`.
pub open spec fn spec_audio_encodings(mode: ProcessingMode) -> Seq<Seq<char>> {
    match mode {
        ProcessingMode::Copy => seq!["-c:a"@, "aac"@, "-b:a"@, "128k"@],
        ProcessingMode::PitchShift(shifts) => spec_encoding_chain(shifts@.len() as int),
    }
}

/// Assembles transcode-tool invocations at a fixed segment duration.
pub struct DashProcessor {
    segment_duration: u32,
}

impl DashProcessor {
    /// Seconds per produced media segment.
    pub closed spec fn view(&self) -> nat {
        self.segment_duration as nat
    }

    pub fn new(segment_duration: u32) -> (p: DashProcessor)
        ensures
            p@ == segment_duration as nat,
    {
        DashProcessor { segment_duration }
    }

    /// The filter graph: a single loudness normalization in copy mode; an
    /// audio split into one pitch-shifted, normalized stream per semitone
    /// offset in pitch-shift mode.
    pub fn build_filter_complex(&self, mode: &ProcessingMode) -> (r: Option<String>)
        requires
            mode_wf(*mode),
        ensures
            r matches Some(f) && f@ == spec_filter_complex(*mode),
    {
        match mode {
            ProcessingMode::Copy => {
                Some(String::from_str("[0:a]loudnorm=I=-16:TP=-1.5:LRA=11[normalized]"))
            },
            ProcessingMode::PitchShift(shifts) => {
                let n = shifts.len();
                let mut f = String::from_str("[0:a]asplit=");
                f.append(u64_to_dec(n as u64).as_str());
                let ghost head = f@;
                let mut i: usize = 0;
                while i < n
                    invariant
                        i <= n,
                        n == shifts@.len(),
                        f@ == head + spec_split_labels(i as int),
                    decreases n - i,
                {
                    f.append("[a");
                    f.append(u64_to_dec(i as u64).as_str());
                    f.append("]");
                    i += 1;
                }
                if n > 0 {
                    f.append(";");
                    let ghost mid = f@;
                    let mut j: usize = 0;
                    while j < n
                        invariant
                            j <= n,
                            n == shifts@.len(),
                            mode_wf(*mode),
                            mode matches ProcessingMode::PitchShift(s) && s@ == shifts@,
                            f@ == mid + spec_pitch_chain(shifts@, j as int),
                        decreases n - j,
                    {
                        if j > 0 {
                            f.append(";");
                        }
                        f.append(" [a");
                        f.append(u64_to_dec(j as u64).as_str());
                        f.append("]rubberband=pitch=");
                        f.append(pitch_ratio_str(shifts[j]));
                        f.append(",loudnorm=I=-16:TP=-1.5:LRA=11[p");
                        f.append(u64_to_dec(j as u64).as_str());
                        f.append("]");
                        proof {
                            if j == 0 {
                                assert(f@ =~= mid + spec_pitch_chain(shifts@, 1));
                            } else {
                                assert(f@ =~= mid + spec_pitch_chain(shifts@, j + 1));
                            }
                        }
                        j += 1;
                    }
                    proof {
                        assert(f@ =~= spec_filter_complex(*mode));
                    }
                } else {
                    proof {
                        assert(f@ =~= spec_filter_complex(*mode));
                    }
                }
                Some(f)
            },
        }
    }

    /// The adaptation sets: the video set, then one set per audio variant.
    pub fn build_adaptation_sets(&self, mode: &ProcessingMode) -> (r: String)
        ensures
            r@ == spec_adaptation_sets(*mode),
    {
        match mode {
            ProcessingMode::Copy => String::from_str("id=0,streams=0 id=1,streams=1"),
            ProcessingMode::PitchShift(shifts) => {
                let n = shifts.len();
                let mut a = String::from_str("id=0,streams=0");
                let ghost head = a@;
                let mut i: usize = 0;
                while i < n
                    invariant
                        i <= n,
                        n == shifts@.len(),
                        a@ == head + spec_adaptation_chain(i as int),
                    decreases n - i,
                {
                    a.append(" id=");
                    a.append(u64_to_dec(i as u64 + 1).as_str());
                    a.append(",streams=");
                    a.append(u64_to_dec(i as u64 + 1).as_str());
                    proof {
                        assert(a@ =~= head + spec_adaptation_chain(i + 1));
                    }
                    i += 1;
                }
                a
            },
        }
    }

    /// The stream mappings: the video stream, then each audio stream.
    pub fn build_stream_mappings(&self, mode: &ProcessingMode) -> (r: Vec<String>)
        ensures
            r.deep_view() == spec_stream_mappings(*mode),
    {
        let mut m: Vec<String> = Vec::new();
        m.push(String::from_str("-map"));
        m.push(String::from_str("0:v"));
        match mode {
            ProcessingMode::Copy => {
                m.push(String::from_str("-map"));
                m.push(String::from_str("[normalized]"));
                proof {
                    assert(m.deep_view() =~~= spec_stream_mappings(*mode));
                }
            },
            ProcessingMode::PitchShift(shifts) => {
                let n = shifts.len();
                let ghost head = m.deep_view();
                proof {
                    assert(head =~= seq!["-map"@, "0:v"@]);
                }
                let mut i: usize = 0;
                while i < n
                    invariant
                        i <= n,
                        n == shifts@.len(),
                        m.deep_view() == head + spec_mapping_chain(i as int),
                    decreases n - i,
                {
                    let ghost prev = m.deep_view();
                    m.push(String::from_str("-map"));
                    let mut p = String::from_str("[p");
                    p.append(u64_to_dec(i as u64).as_str());
                    p.append("]");
                    m.push(p);
                    proof {
                        assert(m.deep_view() =~~= prev.push("-map"@).push(p@));
                        assert(m.deep_view() =~~= head + spec_mapping_chain(i + 1));
                    }
                    i += 1;
                }
                proof {
                    assert(m.deep_view() =~~= spec_stream_mappings(*mode));
                }
            },
        }
        m
    }

    /// The audio encoder settings.
    pub fn build_audio_encodings(&self, mode: &ProcessingMode) -> (r: Vec<String>)
        ensures
            r.deep_view() == spec_audio_encodings(*mode),
    {
        let mut e: Vec<String> = Vec::new();
        match mode {
            ProcessingMode::Copy => {
                e.push(String::from_str("-c:a"));
                e.push(String::from_str("aac"));
                e.push(String::from_str("-b:a"));
                e.push(String::from_str("128k"));
                proof {
                    assert(e.deep_view() =~~= spec_audio_encodings(*mode));
                }
            },
            ProcessingMode::PitchShift(shifts) => {
                let n = shifts.len();
                let ghost head = e.deep_view();
                proof {
                    assert(head =~= Seq::<Seq<char>>::empty());
                }
                let mut i: usize = 0;
                while i < n
                    invariant
                        i <= n,
                        n == shifts@.len(),
                        e.deep_view() == head + spec_encoding_chain(i as int),
                    decreases n - i,
                {
                    let ghost prev = e.deep_view();
                    let mut c = String::from_str("-c:a:");
                    c.append(u64_to_dec(i as u64).as_str());
                    e.push(c);
                    e.push(String::from_str("aac"));
                    let mut b = String::from_str("-b:a:");
                    b.append(u64_to_dec(i as u64).as_str());
                    e.push(b);
                    e.push(String::from_str("128k"));
                    proof {
                        assert(e.deep_view() =~~= prev.push(c@).push("aac"@).push(b@).push("128k"@));
                        assert(e.deep_view() =~~= head + spec_encoding_chain(i + 1));
                    }
                    i += 1;
                }
                proof {
                    assert(e.deep_view() =~~= spec_audio_encodings(*mode));
                }
            },
        }
        e
    }

    /// The whole transcode-tool argument list for one invocation: copy the
    /// video, filter the audio as `mode` says, and segment the output at
    /// this processor's duration.
    pub fn build_args(&self, input_file: &str, output_file: &str, mode: &ProcessingMode) -> (r: Vec<
        String,
    >)
        requires
            mode_wf(*mode),
        ensures
            r.deep_view() == spec_dash_args(self@, input_file@, output_file@, *mode),
    {
        let mut args: Vec<String> = Vec::new();
        args.push(String::from_str("-i"));
        args.push(String::from_str(input_file));
        args.push(String::from_str("-c:v"));
        args.push(String::from_str("copy"));
        if let Some(filter) = self.build_filter_complex(mode) {
            args.push(String::from_str("-filter_complex"));
            args.push(filter);
        }
        let mut mappings = self.build_stream_mappings(mode);
        let ghost premap = args.deep_view();
        let ghost mapview = mappings.deep_view();
        args.append(&mut mappings);
        proof {
            assert(args.deep_view() =~~= premap + mapview);
        }
        let mut encodings = self.build_audio_encodings(mode);
        let ghost preenc = args.deep_view();
        let ghost encview = encodings.deep_view();
        args.append(&mut encodings);
        proof {
            assert(args.deep_view() =~~= preenc + encview);
        }
        args.push(String::from_str("-f"));
        args.push(String::from_str("dash"));
        args.push(String::from_str("-adaptation_sets"));
        args.push(self.build_adaptation_sets(mode));
        args.push(String::from_str("-seg_duration"));
        args.push(u64_to_dec(self.segment_duration as u64));
        args.push(String::from_str(output_file));
        proof {
            assert(args.deep_view() =~~= spec_dash_args(self@, input_file@, output_file@, *mode));
        }
        args
    }
}

/// The whole transcode-tool argument list, as [`DashProcessor::build_args`]
/// assembles it.
pub open spec fn spec_dash_args(
    segment_duration: nat,
    input_file: Seq<char>,
    output_file: Seq<char>,
    mode: ProcessingMode,
) -> Seq<Seq<char>> {
    seq!["-i"@, input_file, "-c:v"@, "copy"@, "-filter_complex"@, spec_filter_complex(mode)]
        + spec_stream_mappings(mode) + spec_audio_encodings(mode) + seq![
        "-f"@,
        "dash"@,
        "-adaptation_sets"@,
        spec_adaptation_sets(mode),
        "-seg_duration"@,
        spec_dec_digits(segment_duration),
        output_file,
    ]
}

} // verus!
