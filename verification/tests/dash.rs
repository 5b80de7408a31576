use pitchperfect::dash::{DashProcessor, ProcessingMode};
use pitchperfect::pipeline::processing_mode_for;

#[test]
fn copy_mode_builds_a_single_normalized_stream() {
    let p = DashProcessor::new(4);
    let mode = ProcessingMode::Copy;
    assert_eq!(
        p.build_filter_complex(&mode).unwrap(),
        "[0:a]loudnorm=I=-16:TP=-1.5:LRA=11[normalized]"
    );
    assert_eq!(p.build_adaptation_sets(&mode), "id=0,streams=0 id=1,streams=1");
    assert_eq!(p.build_stream_mappings(&mode), vec!["-map", "0:v", "-map", "[normalized]"]);
    assert_eq!(p.build_audio_encodings(&mode), vec!["-c:a", "aac", "-b:a", "128k"]);
}

#[test]
fn pitch_shift_builds_one_stream_per_semitone() {
    let p = DashProcessor::new(4);
    let mode = ProcessingMode::PitchShift(vec![0]);
    assert_eq!(
        p.build_filter_complex(&mode).unwrap(),
        "[0:a]asplit=1[a0]; [a0]rubberband=pitch=1,loudnorm=I=-16:TP=-1.5:LRA=11[p0]"
    );

    let mode = ProcessingMode::PitchShift(vec![-1, 1]);
    assert_eq!(
        p.build_filter_complex(&mode).unwrap(),
        "[0:a]asplit=2[a0][a1]; \
         [a0]rubberband=pitch=0.9438743126816935,loudnorm=I=-16:TP=-1.5:LRA=11[p0]; \
         [a1]rubberband=pitch=1.0594630943592953,loudnorm=I=-16:TP=-1.5:LRA=11[p1]"
    );
    assert_eq!(p.build_adaptation_sets(&mode), "id=0,streams=0 id=1,streams=1 id=2,streams=2");
    assert_eq!(p.build_stream_mappings(&mode), vec!["-map", "0:v", "-map", "[p0]", "-map", "[p1]"]);
    assert_eq!(
        p.build_audio_encodings(&mode),
        vec!["-c:a:0", "aac", "-b:a:0", "128k", "-c:a:1", "aac", "-b:a:1", "128k"]
    );
}

#[test]
fn the_full_semitone_list_yields_seven_audio_sets() {
    let p = DashProcessor::new(4);
    let mode = processing_mode_for(true);
    match &mode {
        ProcessingMode::PitchShift(shifts) => assert_eq!(shifts, &vec![-3, -2, -1, 0, 1, 2, 3]),
        ProcessingMode::Copy => panic!("expected pitch-shift mode"),
    }
    assert_eq!(
        p.build_adaptation_sets(&mode),
        "id=0,streams=0 id=1,streams=1 id=2,streams=2 id=3,streams=3 id=4,streams=4 \
         id=5,streams=5 id=6,streams=6 id=7,streams=7"
    );
    assert_eq!(p.build_stream_mappings(&mode).len(), 2 + 2 * 7);
    assert_eq!(p.build_audio_encodings(&mode).len(), 4 * 7);

    let plain = processing_mode_for(false);
    assert!(matches!(plain, ProcessingMode::Copy));
}

#[test]
fn build_args_assembles_the_whole_invocation() {
    let p = DashProcessor::new(4);
    let args = p.build_args("in.mp4", "out.mpd", &ProcessingMode::Copy);
    let expect: Vec<String> = [
        "-i",
        "in.mp4",
        "-c:v",
        "copy",
        "-filter_complex",
        "[0:a]loudnorm=I=-16:TP=-1.5:LRA=11[normalized]",
        "-map",
        "0:v",
        "-map",
        "[normalized]",
        "-c:a",
        "aac",
        "-b:a",
        "128k",
        "-f",
        "dash",
        "-adaptation_sets",
        "id=0,streams=0 id=1,streams=1",
        "-seg_duration",
        "4",
        "out.mpd",
    ]
    .iter()
    .map(|s| s.to_string())
    .collect();
    assert_eq!(args, expect);
}
