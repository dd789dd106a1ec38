use media_jobs::commands::{
    audio_encode_args, audio_output_path, audio_probe_args, merge_args, normalisation_filter_text,
    video_first_pass_args, video_probe_args, video_second_pass_args, PASS_LOG_PREFIX,
    TARGET_LOUDNESS, VIDEO_OUTPUT,
};
use media_jobs::text::{signed_text, unsigned_text};
use media_jobs::AudioConstants;

fn measured() -> AudioConstants {
    AudioConstants {
        input_i: "-23.54".to_string(),
        input_tp: "-5.43".to_string(),
        input_lra: "7.20".to_string(),
        input_thresh: "-34.01".to_string(),
    }
}

#[test]
fn decimal_texts() {
    assert_eq!(unsigned_text(0), "0");
    assert_eq!(unsigned_text(1234567), "1234567");
    assert_eq!(signed_text(-18), "-18");
    assert_eq!(signed_text(i64::MIN), "-9223372036854775808");
    assert_eq!(signed_text(42), "42");
}

#[test]
fn probe_selects_the_audio_stream() {
    assert_eq!(
        audio_probe_args("in.mkv", 3),
        vec![
            "-hide_banner", "-i", "in.mkv", "-vn", "-map", "0:a:3", "-filter:a",
            "loudnorm=print_format=json", "-f", "null", "/dev/null"
        ]
    );
}

#[test]
fn encode_uses_the_measurements() {
    assert_eq!(
        normalisation_filter_text(TARGET_LOUDNESS, &measured()),
        "loudnorm=linear=true:i=-18:measured_I=-23.54:measured_LRA=7.20:measured_tp=-5.43:measured_thresh=-34.01"
    );
    assert_eq!(audio_output_path(12), "./audio_12.opus");
    let args = audio_encode_args("in.mkv", 1, TARGET_LOUDNESS, &measured());
    assert_eq!(args.len(), 14);
    assert_eq!(args[6], "0:a:1");
    assert_eq!(args[8], normalisation_filter_text(-18, &measured()));
    assert_eq!(args[13], "./audio_1.opus");
}

#[test]
fn video_probe_and_passes() {
    assert_eq!(
        video_probe_args("in.mkv"),
        vec![
            "-hide_banner", "-v", "error", "-select_streams", "v", "-show_entries",
            "stream=width,height", "-print_format", "json", "in.mkv"
        ]
    );
    let first = video_first_pass_args("in.mkv", PASS_LOG_PREFIX);
    assert_eq!(first[7], "1");
    assert_eq!(first[9], "./ffmpeg2pass");
    let second = video_second_pass_args("in.mkv", 28, PASS_LOG_PREFIX, VIDEO_OUTPUT);
    assert_eq!(second[5], "-crf");
    assert_eq!(second[6], "28");
    assert_eq!(second[8], "2");
    assert_eq!(second[10], "./ffmpeg2pass");
    assert_eq!(second[12], "1");
    assert_eq!(second.last().unwrap(), "output.webm");
    assert_eq!(second.len(), 30);
}

#[test]
fn merge_maps_every_input() {
    let audio = vec!["./audio_0.opus".to_string(), "./audio_1.opus".to_string()];
    assert_eq!(
        merge_args("output.webm", &audio, "merged.webm"),
        vec![
            "-hide_banner", "-y", "-i", "output.webm", "-i", "./audio_0.opus", "-i",
            "./audio_1.opus", "-map", "0:v", "-map", "1:a", "-map", "2:a", "-codec", "copy",
            "merged.webm"
        ]
    );
    assert_eq!(
        merge_args("v.webm", &vec![], "m.webm"),
        vec!["-hide_banner", "-y", "-i", "v.webm", "-map", "0:v", "-codec", "copy", "m.webm"]
    );
}
