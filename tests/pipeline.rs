use media_jobs::pipeline::{Pipeline, PipelineError, Stage, StageResult, Step};
use media_jobs::reports::audio_constants_from_report;
use media_jobs::service::{ServiceAction, ServiceInput, StatusService};
use media_jobs::{crf, AudioVideoStatus, JobStatus, RequestForJobStatus};

/// What a stand-in measuring tool prints: progress output, then the
/// twelve-line JSON block of the loudness filter.
fn stand_in_loudness(i: &str) -> String {
    let mut s = String::from("size=N/A time=00:00:01.00\n[Parsed_loudnorm_0 @ 0x1] \n{\n");
    s.push_str(&format!("\"input_i\" : \"{}\",\n", i));
    s.push_str("\"input_tp\" : \"-1.00\",\n\"input_lra\" : \"2.00\",\n");
    s.push_str("\"input_thresh\" : \"-30.00\",\n\"output_i\" : \"-18.00\",\n");
    s.push_str("\"output_tp\" : \"-1.50\",\n\"output_lra\" : \"1.90\",\n");
    s.push_str("\"output_thresh\" : \"-28.00\",\n\"normalization_type\" : \"linear\",\n");
    s.push_str("\"target_offset\" : \"0.00\"\n}\n");
    s
}

const NO_TRACK: &str = "Stream map '0:a:2' matches no streams.\n";
const VIDEO_PROBE: &str = "{\"streams\": [{\"width\": 1280, \"height\": 720}]}";

/// What the stand-in tools give for each invocation.
fn stand_in_result(stage: Stage) -> StageResult {
    match stage {
        Stage::AudioProbe(0) => StageResult::Measured(audio_constants_from_report(&stand_in_loudness("-20.00"))),
        Stage::AudioProbe(1) => StageResult::Measured(audio_constants_from_report(&stand_in_loudness("-22.50"))),
        Stage::AudioProbe(_) => StageResult::Measured(audio_constants_from_report(NO_TRACK)),
        Stage::VideoProbe => StageResult::Exited(true, VIDEO_PROBE.to_string()),
        _ => StageResult::Exited(true, String::new()),
    }
}

fn snapshot(svc: &mut StatusService) -> JobStatus {
    match svc.step(ServiceInput::Request(RequestForJobStatus)) {
        ServiceAction::Reply(s) => s,
        other => panic!("expected a reply, got {:?}", other),
    }
}

/// Drives a job with stand-in tools, always completing the oldest running
/// invocation first; returns the order in which stages were started, the
/// final status and how the job ended.
fn drive(fail_at: Option<Stage>) -> (Vec<Stage>, JobStatus, Result<String, PipelineError>) {
    let (mut pipeline, mut steps) = Pipeline::new("in.mkv".to_string());
    let mut svc = StatusService::new();
    let mut running: Vec<Stage> = vec![];
    let mut started: Vec<Stage> = vec![];
    loop {
        for step in steps {
            match step {
                Step::Run(inv) => {
                    started.push(inv.stage);
                    running.push(inv.stage);
                },
                Step::Publish(e) => {
                    svc.step(ServiceInput::Event(e));
                },
                Step::Finished(p) => return (started, snapshot(&mut svc), Ok(p)),
                Step::Failed(e) => return (started, snapshot(&mut svc), Err(e)),
            }
        }
        assert!(!running.is_empty(), "stalled");
        let stage = running.remove(0);
        let result = if Some(stage) == fail_at {
            StageResult::Exited(false, String::new())
        } else {
            stand_in_result(stage)
        };
        steps = pipeline.handle(stage, result);
    }
}

#[test]
fn stand_in_tools_drive_the_job_to_finished() {
    let (started, last, end) = drive(None);
    assert_eq!(end, Ok("merged.webm".to_string()));
    assert_eq!(last.audio, AudioVideoStatus::Finished);
    assert_eq!(last.video, AudioVideoStatus::Finished);
    assert_eq!(last.dimensions, Some((1280, 720)));
    let expected = (-0.0084 * ((1280.0f64) * 720.0).sqrt() + 40.22287).round().clamp(0.0, 63.0) as usize;
    assert_eq!(last.crf, Some(expected));
    assert_eq!(crf(1280, 720), expected);
    let constants = last.audio_constants.as_ref().unwrap();
    assert_eq!(constants.len(), 2);
    assert_eq!(constants[1].input_i, "-22.50");
    assert_eq!(last.video_conversion_log_path, Some("./ffmpeg2pass-0.log".to_string()));
    assert_eq!(
        started,
        vec![
            Stage::AudioProbe(0),
            Stage::VideoProbe,
            Stage::VideoFirstPass,
            Stage::AudioProbe(1),
            Stage::VideoSecondPass,
            Stage::AudioProbe(2),
            Stage::AudioEncode(0),
            Stage::AudioEncode(1),
            Stage::Merge,
        ]
    );
}

#[test]
fn first_steps_start_both_stages() {
    let (_, steps) = Pipeline::new("in.mkv".to_string());
    let stages: Vec<Stage> = steps
        .iter()
        .map(|s| match s {
            Step::Run(inv) => inv.stage,
            other => panic!("unexpected {:?}", other),
        })
        .collect();
    assert_eq!(stages, vec![Stage::AudioProbe(0), Stage::VideoProbe, Stage::VideoFirstPass]);
    match &steps[1] {
        Step::Run(inv) => {
            assert_eq!(inv.program, "ffprobe");
            assert_eq!(inv.args.last().unwrap(), "in.mkv");
        },
        _ => unreachable!(),
    }
}

#[test]
fn merge_waits_for_both_stages() {
    let (mut p, _) = Pipeline::new("in.mkv".to_string());
    // No audio tracks at all: the audio stage is done at once.
    let steps = p.handle(Stage::AudioProbe(0), StageResult::Measured(None));
    assert!(steps.iter().all(|s| !matches!(s, Step::Run(inv) if inv.stage == Stage::Merge)));
    assert!(p.audio_done);
    let steps = p.handle(Stage::VideoFirstPass, StageResult::Exited(true, String::new()));
    assert!(steps.iter().all(|s| !matches!(s, Step::Run(_))));
    let steps = p.handle(Stage::VideoProbe, StageResult::Exited(true, VIDEO_PROBE.to_string()));
    assert!(steps.iter().any(|s| matches!(s, Step::Run(inv) if inv.stage == Stage::VideoSecondPass)));
    let steps = p.handle(Stage::VideoSecondPass, StageResult::Exited(true, String::new()));
    match steps.last().unwrap() {
        Step::Run(inv) => {
            assert_eq!(inv.stage, Stage::Merge);
            assert_eq!(inv.args, vec!["-hide_banner", "-y", "-i", "output.webm", "-map", "0:v", "-codec", "copy", "merged.webm"]);
        },
        other => panic!("expected the merge, got {:?}", other),
    }
}

#[test]
fn a_failing_tool_ends_the_job() {
    let (_, last, end) = drive(Some(Stage::VideoFirstPass));
    assert_eq!(end, Err(PipelineError::ToolFailed(Stage::VideoFirstPass)));
    assert_eq!(last.video, AudioVideoStatus::FirstPass);
    let (_, _, end) = drive(Some(Stage::AudioEncode(1)));
    assert_eq!(end, Err(PipelineError::ToolFailed(Stage::AudioEncode(1))));
}

#[test]
fn unreadable_probe_and_unexpected_results_fail() {
    let (mut p, _) = Pipeline::new("in.mkv".to_string());
    let steps = p.handle(Stage::VideoProbe, StageResult::Exited(true, "{}".to_string()));
    assert!(matches!(steps[0], Step::Failed(PipelineError::Unreadable(Stage::VideoProbe))));
    assert!(p.handle(Stage::Merge, StageResult::Exited(true, String::new())).is_empty());

    let (mut p, _) = Pipeline::new("in.mkv".to_string());
    let steps = p.handle(Stage::Merge, StageResult::Exited(true, String::new()));
    assert!(matches!(steps[0], Step::Failed(PipelineError::Unexpected(Stage::Merge))));

    let (mut p, _) = Pipeline::new("in.mkv".to_string());
    let steps = p.handle(Stage::AudioProbe(3), StageResult::Measured(None));
    assert!(matches!(steps[0], Step::Failed(PipelineError::Unexpected(Stage::AudioProbe(3)))));
}
