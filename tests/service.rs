use media_jobs::service::{ServiceAction, ServiceInput, StatusService};
use media_jobs::{AudioVideoStatus, JobToOverseerMessage, RequestForJobStatus};

fn reply(action: ServiceAction) -> media_jobs::JobStatus {
    match action {
        ServiceAction::Reply(s) => s,
        other => panic!("expected a reply, got {:?}", other),
    }
}

#[test]
fn replies_reflect_exactly_the_prior_events() {
    let mut svc = StatusService::new();
    let first = reply(svc.step(ServiceInput::Request(RequestForJobStatus)));
    assert_eq!(first.audio, AudioVideoStatus::FirstPass);
    assert_eq!(first.crf, None);

    assert!(matches!(
        svc.step(ServiceInput::Event(JobToOverseerMessage::AudioSecondPassFinished)),
        ServiceAction::Idle
    ));
    let second = reply(svc.step(ServiceInput::Request(RequestForJobStatus)));
    assert_eq!(second.audio, AudioVideoStatus::Finished);
    assert_eq!(second.video, AudioVideoStatus::FirstPass);

    svc.step(ServiceInput::Event(JobToOverseerMessage::VideoCrfDetermined(28)));
    let third = reply(svc.step(ServiceInput::Request(RequestForJobStatus)));
    let fourth = reply(svc.step(ServiceInput::Request(RequestForJobStatus)));
    assert_eq!(third.crf, Some(28));
    assert_eq!(fourth.crf, Some(28));

    svc.step(ServiceInput::Event(JobToOverseerMessage::VideoFirstPassFinished));
    // Replies handed out earlier do not see later events.
    assert_eq!(second.crf, None);
    assert_eq!(third.video, AudioVideoStatus::FirstPass);
    let fifth = reply(svc.step(ServiceInput::Request(RequestForJobStatus)));
    assert_eq!(fifth.video, AudioVideoStatus::SecondPass);
}

#[test]
fn draining_answers_requests_until_both_channels_close() {
    let mut svc = StatusService::new();
    svc.step(ServiceInput::Event(JobToOverseerMessage::VideoSecondPassFinished));
    assert!(matches!(svc.step(ServiceInput::EventsClosed), ServiceAction::Idle));
    assert!(!svc.is_stopped());
    let s = reply(svc.step(ServiceInput::Request(RequestForJobStatus)));
    assert_eq!(s.video, AudioVideoStatus::Finished);
    assert!(matches!(svc.step(ServiceInput::RequestsClosed), ServiceAction::Stop));
    assert!(svc.is_stopped());
    assert!(matches!(
        svc.step(ServiceInput::Request(RequestForJobStatus)),
        ServiceAction::Stop
    ));
}

#[test]
fn closed_requests_still_ingest_events() {
    let mut svc = StatusService::new();
    assert!(matches!(svc.step(ServiceInput::RequestsClosed), ServiceAction::Idle));
    svc.step(ServiceInput::Event(JobToOverseerMessage::VideoDimensionsDetermined(640, 480)));
    assert_eq!(svc.status.dimensions, Some((640, 480)));
    assert!(matches!(svc.step(ServiceInput::EventsClosed), ServiceAction::Stop));
    assert!(svc.is_stopped());
}
