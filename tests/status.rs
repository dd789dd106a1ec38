use media_jobs::{AudioConstants, AudioVideoStatus, JobStatus, JobToOverseerMessage};
use std::sync::Arc;

fn constants(i: &str) -> Arc<Vec<AudioConstants>> {
    Arc::new(vec![AudioConstants {
        input_i: i.to_string(),
        input_tp: "-5.43".to_string(),
        input_lra: "7.20".to_string(),
        input_thresh: "-34.01".to_string(),
    }])
}

fn sample_events() -> Vec<JobToOverseerMessage> {
    vec![
        JobToOverseerMessage::AudioConstantsDetermined(constants("-23.54")),
        JobToOverseerMessage::VideoDimensionsDetermined(1920, 1080),
        JobToOverseerMessage::VideoCrfDetermined(28),
        JobToOverseerMessage::VideoFirstPassFinished,
        JobToOverseerMessage::VideoSecondPassProgress("./ffmpeg2pass-0.log".to_string()),
        JobToOverseerMessage::VideoSecondPassFinished,
        JobToOverseerMessage::AudioSecondPassFinished,
        JobToOverseerMessage::VideoDimensionsDetermined(640, 480),
        JobToOverseerMessage::VideoCrfDetermined(36),
        JobToOverseerMessage::AudioConstantsDetermined(constants("-19.00")),
    ]
}

/// The value each field should hold: that of the last event writing it.
fn reference_fold(events: &[JobToOverseerMessage]) -> JobStatus {
    let mut audio = AudioVideoStatus::FirstPass;
    let mut video = AudioVideoStatus::FirstPass;
    let mut audio_constants = None;
    let mut dimensions = None;
    let mut crf = None;
    let mut log = None;
    for e in events {
        match e {
            JobToOverseerMessage::AudioSecondPassFinished => audio = AudioVideoStatus::Finished,
            JobToOverseerMessage::VideoFirstPassFinished => video = AudioVideoStatus::SecondPass,
            JobToOverseerMessage::VideoSecondPassFinished => video = AudioVideoStatus::Finished,
            JobToOverseerMessage::AudioConstantsDetermined(c) => audio_constants = Some(c.clone()),
            JobToOverseerMessage::VideoDimensionsDetermined(w, h) => dimensions = Some((*w, *h)),
            JobToOverseerMessage::VideoCrfDetermined(q) => crf = Some(*q),
            JobToOverseerMessage::VideoSecondPassProgress(p) => log = Some(p.clone()),
        }
    }
    JobStatus {
        audio,
        video,
        audio_constants,
        dimensions,
        crf,
        video_conversion_log_path: log,
    }
}

fn assert_same(a: &JobStatus, b: &JobStatus) {
    assert_eq!(a.audio, b.audio);
    assert_eq!(a.video, b.video);
    assert_eq!(
        a.audio_constants.as_ref().map(|c| c[0].input_i.clone()),
        b.audio_constants.as_ref().map(|c| c[0].input_i.clone())
    );
    assert_eq!(a.dimensions, b.dimensions);
    assert_eq!(a.crf, b.crf);
    assert_eq!(a.video_conversion_log_path, b.video_conversion_log_path);
}

#[test]
fn fresh_status_is_at_first_passes() {
    let s = JobStatus::new();
    assert_eq!(s.audio, AudioVideoStatus::FirstPass);
    assert_eq!(s.video, AudioVideoStatus::FirstPass);
    assert!(s.audio_constants.is_none());
    assert_eq!(s.dimensions, None);
    assert_eq!(s.crf, None);
    assert_eq!(s.video_conversion_log_path, None);
}

#[test]
fn each_event_writes_its_field() {
    let mut s = JobStatus::new();
    s.process_update(JobToOverseerMessage::VideoFirstPassFinished);
    assert_eq!(s.video, AudioVideoStatus::SecondPass);
    assert_eq!(s.audio, AudioVideoStatus::FirstPass);
    s.process_update(JobToOverseerMessage::VideoSecondPassFinished);
    assert_eq!(s.video, AudioVideoStatus::Finished);
    s.process_update(JobToOverseerMessage::AudioSecondPassFinished);
    assert_eq!(s.audio, AudioVideoStatus::Finished);
    s.process_update(JobToOverseerMessage::VideoDimensionsDetermined(3840, 2160));
    assert_eq!(s.dimensions, Some((3840, 2160)));
    s.process_update(JobToOverseerMessage::VideoCrfDetermined(16));
    assert_eq!(s.crf, Some(16));
    s.process_update(JobToOverseerMessage::VideoSecondPassProgress("log".to_string()));
    assert_eq!(s.video_conversion_log_path, Some("log".to_string()));
}

#[test]
fn out_of_order_events_are_accepted_as_they_come() {
    let mut s = JobStatus::new();
    s.process_update(JobToOverseerMessage::VideoSecondPassFinished);
    s.process_update(JobToOverseerMessage::VideoFirstPassFinished);
    assert_eq!(s.video, AudioVideoStatus::SecondPass);
}

#[test]
fn last_write_wins_over_permutations() {
    let events = sample_events();
    let n = events.len();
    // Rotations and reversals of the event list, plus a fixed shuffle.
    let mut orders: Vec<Vec<usize>> = vec![];
    for r in 0..n {
        orders.push((0..n).map(|i| (i + r) % n).collect());
        orders.push((0..n).rev().map(|i| (i + r) % n).collect());
    }
    orders.push(vec![3, 7, 1, 9, 0, 5, 2, 8, 6, 4]);
    for order in orders {
        let replay: Vec<JobToOverseerMessage> = order.iter().map(|&i| events[i].clone()).collect();
        let mut s = JobStatus::new();
        for e in replay.iter() {
            s.process_update(e.clone());
        }
        assert_same(&s, &reference_fold(&replay));
    }
}

#[test]
fn snapshot_is_independent_of_later_updates() {
    let mut s = JobStatus::new();
    s.process_update(JobToOverseerMessage::VideoCrfDetermined(28));
    let snap = s.snapshot();
    s.process_update(JobToOverseerMessage::VideoCrfDetermined(30));
    assert_eq!(snap.crf, Some(28));
    assert_eq!(s.crf, Some(30));
}
