use media_jobs::reports::{audio_constants_from_report, loudness_report, video_dimensions_from_probe};
use media_jobs::tracks::AudioTrackScan;

fn loudnorm_stderr(i: &str) -> String {
    let mut s = String::new();
    s.push_str("Input #0, matroska,webm, from 'in.mkv':\n");
    s.push_str("  Duration: 00:00:10.00, start: 0.000000, bitrate: 128 kb/s\n");
    s.push_str("size=N/A time=00:00:10.00 bitrate=N/A speed= 512x\n");
    s.push_str("[Parsed_loudnorm_0 @ 0x55d5c5f0a940] \n");
    s.push_str("{\n");
    s.push_str(&format!("\t\"input_i\" : \"{}\",\n", i));
    s.push_str("\t\"input_tp\" : \"-5.43\",\n");
    s.push_str("\t\"input_lra\" : \"7.20\",\n");
    s.push_str("\t\"input_thresh\" : \"-34.01\",\n");
    s.push_str("\t\"output_i\" : \"-24.03\",\n");
    s.push_str("\t\"output_tp\" : \"-5.91\",\n");
    s.push_str("\t\"output_lra\" : \"6.40\",\n");
    s.push_str("\t\"output_thresh\" : \"-34.45\",\n");
    s.push_str("\t\"normalization_type\" : \"dynamic\",\n");
    s.push_str("\t\"target_offset\" : \"0.03\"\n");
    s.push_str("}\n");
    s
}

#[test]
fn report_keeps_the_last_twelve_lines() {
    let mut s = String::new();
    for i in 0..20 {
        s.push_str(&format!("{}\n", i));
    }
    assert_eq!(loudness_report(&s), "8910111213141516171819");
}

#[test]
fn report_of_short_and_empty_streams() {
    assert_eq!(loudness_report(""), "");
    assert_eq!(loudness_report("a\nb\r\nc"), "abc");
    assert_eq!(loudness_report("a\n\n"), "a");
}

#[test]
fn constants_are_read_from_the_trailing_json() {
    let c = audio_constants_from_report(&loudnorm_stderr("-23.54")).unwrap();
    assert_eq!(c.input_i, "-23.54");
    assert_eq!(c.input_tp, "-5.43");
    assert_eq!(c.input_lra, "7.20");
    assert_eq!(c.input_thresh, "-34.01");
}

#[test]
fn constants_missing_when_the_report_does_not_parse() {
    assert!(audio_constants_from_report("").is_none());
    assert!(audio_constants_from_report("Stream map '0:a:2' matches no streams.\n").is_none());
    assert!(audio_constants_from_report("{\"input_i\" : \"-1\"}").is_none());
    assert!(audio_constants_from_report("{\"input_i\":-1,\"input_tp\":\"1\",\"input_lra\":\"1\",\"input_thresh\":\"1\"}").is_none());
}

#[test]
fn scan_stops_at_the_first_unreadable_track() {
    let reports = vec![
        loudnorm_stderr("-23.54"),
        loudnorm_stderr("-19.00"),
        "Stream map '0:a:2' matches no streams.\n".to_string(),
        loudnorm_stderr("-11.00"),
    ];
    let mut scan = AudioTrackScan::new();
    let mut probed = vec![];
    loop {
        let index = scan.next_index();
        probed.push(index);
        if !scan.record(audio_constants_from_report(&reports[index])) {
            break;
        }
    }
    assert_eq!(probed, vec![0, 1, 2]);
    assert_eq!(scan.constants.len(), 2);
    assert_eq!(scan.constants[0].input_i, "-23.54");
    assert_eq!(scan.constants[1].input_i, "-19.00");
    assert!(scan.finished);
    // Nothing is recorded once the scan has ended.
    assert!(!scan.record(audio_constants_from_report(&reports[3])));
    assert_eq!(scan.constants.len(), 2);
}

#[test]
fn scan_with_no_audio_track_is_empty() {
    let mut scan = AudioTrackScan::new();
    assert_eq!(scan.next_index(), 0);
    assert!(!scan.record(audio_constants_from_report("no audio\n")));
    assert!(scan.constants.is_empty());
    assert!(scan.finished);
}

#[test]
fn video_dimensions_of_the_first_stream() {
    let out = "{\n    \"programs\": [],\n    \"streams\": [\n        {\n            \"width\": 1920,\n            \"height\": 1080\n        },\n        {\n            \"width\": 640,\n            \"height\": 480\n        }\n    ]\n}\n";
    assert_eq!(video_dimensions_from_probe(out), Some((1920, 1080)));
}

#[test]
fn video_dimensions_absent() {
    assert_eq!(video_dimensions_from_probe("{\"streams\": []}"), None);
    assert_eq!(video_dimensions_from_probe(""), None);
    assert_eq!(video_dimensions_from_probe("{\"streams\": [{\"width\": 10}]}"), None);
    assert_eq!(video_dimensions_from_probe("not json"), None);
}
