//! The stages of one job as a state machine.
//!
//! The audio stage measures tracks 0, 1, ... until one cannot be measured,
//! then normalises and encodes the measured tracks one after the other. The
//! video stage probes the stream's size and runs the analysis pass side by
//! side; the final pass starts once both are done. The merge starts once both
//! stages are done. A driver runs each invocation that the machine asks for,
//! hands back what came of it, and sends on the events that the machine
//! publishes. Any failure ends the job.
use crate::commands::{
    audio_encode_args, audio_encode_argv, audio_output_path, audio_output_path_of,
    audio_probe_args, audio_probe_argv, merge_args, merge_argv, video_first_pass_args,
    video_first_pass_argv, video_probe_args, video_probe_argv, video_second_pass_args,
    video_second_pass_argv, ENCODER, MERGED_OUTPUT, PASS_LOG_FILE, PASS_LOG_PREFIX, PROBER,
    TARGET_LOUDNESS, VIDEO_OUTPUT,
};
use crate::quality::{crf, quality_of};
use crate::reports::{first_stream_size, video_dimensions_from_probe};
use crate::status::{AudioConstants, JobToOverseerMessage};
use crate::text::views;
use crate::tracks::AudioTrackScan;
use std::sync::Arc;
use vstd::prelude::*;

verus! {

/// One tool invocation of the pipeline.
#[derive(Clone, Copy, Debug, PartialEq, Eq, Structural)]
pub enum Stage {
    /// Measuring the loudness of audio track `i`.
    AudioProbe(usize),
    /// Normalising and encoding audio track `i`.
    AudioEncode(usize),
    /// Reading the video stream's size.
    VideoProbe,
    /// The analysis pass of the video encode.
    VideoFirstPass,
    /// The final pass of the video encode.
    VideoSecondPass,
    /// Putting the encoded streams into one container.
    Merge,
}

/// What came of an invocation.
#[derive(Clone, Debug)]
pub enum StageResult {
    /// Measuring a track gave these measurements, or none: no such track.
    Measured(Option<AudioConstants>),
    /// The tool exited, successfully or not, having printed this on its
    /// standard output.
    Exited(bool, String),
}

/// Why a job failed.
#[derive(Clone, Copy, Debug, PartialEq, Eq, Structural)]
pub enum PipelineError {
    /// The tool of this stage exited with a failure status.
    ToolFailed(Stage),
    /// The output of this stage did not hold what the job needs.
    Unreadable(Stage),
    /// A result came for a stage that was not running, or of the wrong form.
    Unexpected(Stage),
}

/// A tool to run: the stage it belongs to, the program and its arguments.
#[derive(Clone, Debug)]
pub struct Invocation {
    pub stage: Stage,
    pub program: &'static str,
    pub args: Vec<String>,
}

/// What the driver is to do.
#[derive(Clone, Debug)]
pub enum Step {
    /// Start this invocation and hand back its result when it ends.
    Run(Invocation),
    /// Send this event to the job's status service.
    Publish(JobToOverseerMessage),
    /// The job is done; the merged media is at this path.
    Finished(String),
    /// The job failed.
    Failed(PipelineError),
}

/// An event as a value, the shared measurements by their contents.
pub enum EventView {
    AudioSecondPassFinished,
    VideoFirstPassFinished,
    VideoSecondPassFinished,
    AudioConstantsDetermined(Seq<AudioConstants>),
    VideoDimensionsDetermined(usize, usize),
    VideoCrfDetermined(usize),
    VideoSecondPassProgress(Seq<char>),
}

/// A step as a value; the arguments of a `Run` are stated apart.
pub enum StepView {
    Run(Stage),
    Publish(EventView),
    Finished(Seq<char>),
    Failed(PipelineError),
}

pub open spec fn event_view(e: JobToOverseerMessage) -> EventView {
    match e {
        JobToOverseerMessage::AudioSecondPassFinished => EventView::AudioSecondPassFinished,
        JobToOverseerMessage::VideoFirstPassFinished => EventView::VideoFirstPassFinished,
        JobToOverseerMessage::VideoSecondPassFinished => EventView::VideoSecondPassFinished,
        JobToOverseerMessage::AudioConstantsDetermined(c) => EventView::AudioConstantsDetermined(
            (*c)@,
        ),
        JobToOverseerMessage::VideoDimensionsDetermined(w, h) => {
            EventView::VideoDimensionsDetermined(w, h)
        },
        JobToOverseerMessage::VideoCrfDetermined(q) => EventView::VideoCrfDetermined(q),
        JobToOverseerMessage::VideoSecondPassProgress(p) => EventView::VideoSecondPassProgress(p@),
    }
}

pub open spec fn step_view(s: Step) -> StepView {
    match s {
        Step::Run(inv) => StepView::Run(inv.stage),
        Step::Publish(e) => StepView::Publish(event_view(e)),
        Step::Finished(p) => StepView::Finished(p@),
        Step::Failed(e) => StepView::Failed(e),
    }
}

pub open spec fn step_views(s: Seq<Step>) -> Seq<StepView> {
    s.map_values(|x: Step| step_view(x))
}

/// The state of a job's pipeline as a value.
pub struct PipelineModel {
    /// The media file.
    pub path: Seq<char>,
    /// The measurements of the tracks measured so far.
    pub scanned: Seq<AudioConstants>,
    /// Whether measuring has reached the end of the tracks.
    pub scan_finished: bool,
    /// The measurements of all tracks, once known.
    pub constants: Option<Seq<AudioConstants>>,
    /// The encoded audio tracks so far.
    pub outputs: Seq<Seq<char>>,
    pub audio_done: bool,
    /// The quality of the final pass, once the size is known.
    pub crf: Option<usize>,
    pub first_pass_done: bool,
    pub video_done: bool,
    /// Whether the job has finished or failed.
    pub ended: bool,
}

/// The program that runs `stage`.
pub open spec fn program_of(stage: Stage) -> Seq<char> {
    match stage {
        Stage::VideoProbe => PROBER@,
        _ => ENCODER@,
    }
}

/// The arguments of `stage` in state `m`.
pub open spec fn argv_of(m: PipelineModel, stage: Stage) -> Seq<Seq<char>> {
    match stage {
        Stage::AudioProbe(i) => audio_probe_argv(m.path, i as nat),
        Stage::AudioEncode(i) => audio_encode_argv(
            m.path,
            i as nat,
            TARGET_LOUDNESS as int,
            m.constants->0[i as int],
        ),
        Stage::VideoProbe => video_probe_argv(m.path),
        Stage::VideoFirstPass => video_first_pass_argv(m.path, PASS_LOG_PREFIX@),
        Stage::VideoSecondPass => video_second_pass_argv(
            m.path,
            m.crf->0 as nat,
            PASS_LOG_PREFIX@,
            VIDEO_OUTPUT@,
        ),
        Stage::Merge => merge_argv(VIDEO_OUTPUT@, m.outputs, MERGED_OUTPUT@),
    }
}

/// Every invocation among `steps` runs the program and the arguments that
/// its stage has in state `m`.
pub open spec fn runs_as_planned(m: PipelineModel, steps: Seq<Step>) -> bool {
    forall|i: int|
        0 <= i < steps.len() ==> match #[trigger] steps[i] {
            Step::Run(inv) => inv.program@ == program_of(inv.stage) && views(inv.args@)
                == argv_of(m, inv.stage),
            _ => true,
        }
}

/// The pipeline of a job on `path` as it starts.
pub open spec fn initial_model(path: Seq<char>) -> PipelineModel {
    PipelineModel {
        path,
        scanned: Seq::empty(),
        scan_finished: false,
        constants: None,
        outputs: Seq::empty(),
        audio_done: false,
        crf: None,
        first_pass_done: false,
        video_done: false,
        ended: false,
    }
}

/// The merge, when both stages are done in `m`.
pub open spec fn merge_if_ready(m: PipelineModel) -> Seq<StepView> {
    if m.audio_done && m.video_done {
        seq![StepView::Run(Stage::Merge)]
    } else {
        Seq::empty()
    }
}

/// The final pass, when the quality is known and the analysis pass is done.
pub open spec fn final_pass_if_ready(m: PipelineModel) -> Seq<StepView> {
    if m.crf is Some && m.first_pass_done {
        seq![
            StepView::Publish(EventView::VideoSecondPassProgress(PASS_LOG_FILE@)),
            StepView::Run(Stage::VideoSecondPass),
        ]
    } else {
        Seq::empty()
    }
}

/// The job ends with `e`.
pub open spec fn failing(m: PipelineModel, e: PipelineError) -> (PipelineModel, Seq<StepView>) {
    (PipelineModel { ended: true, ..m }, seq![StepView::Failed(e)])
}

/// The state and the steps after `stage` ended with `result` in state `m`.
pub open spec fn advanced(m: PipelineModel, stage: Stage, result: StageResult) -> (
    PipelineModel,
    Seq<StepView>,
) {
    if m.ended {
        (m, Seq::empty())
    } else {
        match stage {
            Stage::AudioProbe(i) => match result {
                StageResult::Measured(r) => if m.scan_finished || i != m.scanned.len() || i
                    == usize::MAX {
                    failing(m, PipelineError::Unexpected(stage))
                } else {
                    match r {
                        Some(c) => (
                            PipelineModel { scanned: m.scanned.push(c), ..m },
                            seq![StepView::Run(Stage::AudioProbe((i + 1) as usize))],
                        ),
                        None => {
                            let c = m.scanned;
                            let m2 = PipelineModel {
                                scanned: Seq::empty(),
                                scan_finished: true,
                                constants: Some(c),
                                audio_done: c.len() == 0,
                                ..m
                            };
                            let published = StepView::Publish(
                                EventView::AudioConstantsDetermined(c),
                            );
                            if c.len() == 0 {
                                (
                                    m2,
                                    seq![
                                        published,
                                        StepView::Publish(EventView::AudioSecondPassFinished),
                                    ] + merge_if_ready(m2),
                                )
                            } else {
                                (m2, seq![published, StepView::Run(Stage::AudioEncode(0))])
                            }
                        },
                    }
                },
                _ => failing(m, PipelineError::Unexpected(stage)),
            },
            Stage::AudioEncode(i) => match result {
                StageResult::Exited(ok, _) => if m.constants is None || m.audio_done || i
                    != m.outputs.len() || i >= m.constants->0.len() {
                    failing(m, PipelineError::Unexpected(stage))
                } else if !ok {
                    failing(m, PipelineError::ToolFailed(stage))
                } else {
                    let n = m.constants->0.len();
                    let m2 = PipelineModel {
                        outputs: m.outputs.push(audio_output_path_of(i as nat)),
                        audio_done: i + 1 == n,
                        ..m
                    };
                    if i + 1 < n {
                        (m2, seq![StepView::Run(Stage::AudioEncode((i + 1) as usize))])
                    } else {
                        (
                            m2,
                            seq![StepView::Publish(EventView::AudioSecondPassFinished)]
                                + merge_if_ready(m2),
                        )
                    }
                },
                _ => failing(m, PipelineError::Unexpected(stage)),
            },
            Stage::VideoProbe => match result {
                StageResult::Exited(ok, out) => if m.crf is Some {
                    failing(m, PipelineError::Unexpected(stage))
                } else if !ok {
                    failing(m, PipelineError::ToolFailed(stage))
                } else {
                    match first_stream_size(out@) {
                        None => failing(m, PipelineError::Unreadable(stage)),
                        Some((w, h)) => {
                            let q = quality_of(w as int, h as int) as usize;
                            let m2 = PipelineModel { crf: Some(q), ..m };
                            (
                                m2,
                                seq![
                                    StepView::Publish(EventView::VideoDimensionsDetermined(w, h)),
                                    StepView::Publish(EventView::VideoCrfDetermined(q)),
                                ] + final_pass_if_ready(m2),
                            )
                        },
                    }
                },
                _ => failing(m, PipelineError::Unexpected(stage)),
            },
            Stage::VideoFirstPass => match result {
                StageResult::Exited(ok, _) => if m.first_pass_done {
                    failing(m, PipelineError::Unexpected(stage))
                } else if !ok {
                    failing(m, PipelineError::ToolFailed(stage))
                } else {
                    let m2 = PipelineModel { first_pass_done: true, ..m };
                    (
                        m2,
                        seq![StepView::Publish(EventView::VideoFirstPassFinished)]
                            + final_pass_if_ready(m2),
                    )
                },
                _ => failing(m, PipelineError::Unexpected(stage)),
            },
            Stage::VideoSecondPass => match result {
                StageResult::Exited(ok, _) => if m.crf is None || !m.first_pass_done
                    || m.video_done {
                    failing(m, PipelineError::Unexpected(stage))
                } else if !ok {
                    failing(m, PipelineError::ToolFailed(stage))
                } else {
                    let m2 = PipelineModel { video_done: true, ..m };
                    (
                        m2,
                        seq![StepView::Publish(EventView::VideoSecondPassFinished)]
                            + merge_if_ready(m2),
                    )
                },
                _ => failing(m, PipelineError::Unexpected(stage)),
            },
            Stage::Merge => match result {
                StageResult::Exited(ok, _) => if !(m.audio_done && m.video_done) {
                    failing(m, PipelineError::Unexpected(stage))
                } else if !ok {
                    failing(m, PipelineError::ToolFailed(stage))
                } else {
                    (PipelineModel { ended: true, ..m }, seq![StepView::Finished(MERGED_OUTPUT@)])
                },
                _ => failing(m, PipelineError::Unexpected(stage)),
            },
        }
    }
}

/// Whether `stage` can be invoked in state `m`: the measurements of an
/// encoded track and the quality of the final pass are known.
pub open spec fn stage_ready(m: PipelineModel, stage: Stage) -> bool {
    match stage {
        Stage::AudioEncode(i) => m.constants is Some && i < m.constants->0.len(),
        Stage::VideoSecondPass => m.crf is Some,
        _ => true,
    }
}

proof fn lemma_push_step(m: PipelineModel, steps: Seq<Step>, s: Step)
    requires
        runs_as_planned(m, steps),
        s matches Step::Run(inv) ==> inv.program@ == program_of(inv.stage) && views(inv.args@)
            == argv_of(m, inv.stage),
    ensures
        runs_as_planned(m, steps.push(s)),
        step_views(steps.push(s)) == step_views(steps).push(step_view(s)),
{
    assert forall|i: int| 0 <= i < steps.push(s).len() implies match #[trigger] steps.push(s)[i] {
        Step::Run(inv) => inv.program@ == program_of(inv.stage) && views(inv.args@) == argv_of(
            m,
            inv.stage,
        ),
        _ => true,
    } by {
        if i < steps.len() {
            assert(steps.push(s)[i] == steps[i]);
        }
    }
    assert(step_views(steps.push(s)) =~= step_views(steps).push(step_view(s)));
}

/// The pipeline of one job.
pub struct Pipeline {
    pub path: String,
    pub scan: AudioTrackScan,
    pub constants: Option<Arc<Vec<AudioConstants>>>,
    pub audio_outputs: Vec<String>,
    pub audio_done: bool,
    pub crf: Option<usize>,
    pub first_pass_done: bool,
    pub video_done: bool,
    pub ended: bool,
}

impl Pipeline {
    pub open spec fn model(self) -> PipelineModel {
        PipelineModel {
            path: self.path@,
            scanned: self.scan.constants@,
            scan_finished: self.scan.finished,
            constants: match self.constants {
                Some(c) => Some((*c)@),
                None => None,
            },
            outputs: views(self.audio_outputs@),
            audio_done: self.audio_done,
            crf: self.crf,
            first_pass_done: self.first_pass_done,
            video_done: self.video_done,
            ended: self.ended,
        }
    }

    /// The invocation of `stage` in the current state.
    fn invocation(&self, stage: Stage) -> (r: Invocation)
        requires
            stage_ready(self.model(), stage),
        ensures
            r.stage == stage,
            r.program@ == program_of(stage),
            views(r.args@) == argv_of(self.model(), stage),
    {
        let path = self.path.as_str();
        match stage {
            Stage::AudioProbe(i) => Invocation {
                stage,
                program: ENCODER,
                args: audio_probe_args(path, i),
            },
            Stage::AudioEncode(i) => {
                let args = match &self.constants {
                    Some(c) => {
                        let all: &Vec<AudioConstants> = &*c;
                        audio_encode_args(path, i, TARGET_LOUDNESS, &all[i])
                    },
                    None => Vec::new(),
                };
                Invocation { stage, program: ENCODER, args }
            },
            Stage::VideoProbe => Invocation { stage, program: PROBER, args: video_probe_args(path) },
            Stage::VideoFirstPass => Invocation {
                stage,
                program: ENCODER,
                args: video_first_pass_args(path, PASS_LOG_PREFIX),
            },
            Stage::VideoSecondPass => {
                let q = match self.crf {
                    Some(q) => q,
                    None => 0,
                };
                Invocation {
                    stage,
                    program: ENCODER,
                    args: video_second_pass_args(path, q, PASS_LOG_PREFIX, VIDEO_OUTPUT),
                }
            },
            Stage::Merge => Invocation {
                stage,
                program: ENCODER,
                args: merge_args(VIDEO_OUTPUT, &self.audio_outputs, MERGED_OUTPUT),
            },
        }
    }

    /// Appends the invocation of `stage` to `steps`.
    fn push_run(&self, steps: &mut Vec<Step>, stage: Stage)
        requires
            stage_ready(self.model(), stage),
            runs_as_planned(self.model(), old(steps)@),
        ensures
            runs_as_planned(self.model(), final(steps)@),
            step_views(final(steps)@) == step_views(old(steps)@).push(StepView::Run(stage)),
    {
        let inv = self.invocation(stage);
        proof {
            lemma_push_step(self.model(), steps@, Step::Run(inv));
        }
        steps.push(Step::Run(inv));
    }

    /// Appends the publication of `event` to `steps`.
    fn push_publish(&self, steps: &mut Vec<Step>, event: JobToOverseerMessage)
        requires
            runs_as_planned(self.model(), old(steps)@),
        ensures
            runs_as_planned(self.model(), final(steps)@),
            step_views(final(steps)@) == step_views(old(steps)@).push(
                StepView::Publish(event_view(event)),
            ),
    {
        proof {
            lemma_push_step(self.model(), steps@, Step::Publish(event));
        }
        steps.push(Step::Publish(event));
    }

    /// Appends the merge to `steps` when both stages are done.
    fn push_merge_if_ready(&self, steps: &mut Vec<Step>)
        requires
            runs_as_planned(self.model(), old(steps)@),
        ensures
            runs_as_planned(self.model(), final(steps)@),
            step_views(final(steps)@) == step_views(old(steps)@) + merge_if_ready(self.model()),
    {
        if self.audio_done && self.video_done {
            self.push_run(steps, Stage::Merge);
            assert(step_views(steps@) =~= step_views(old(steps)@) + merge_if_ready(self.model()));
        } else {
            assert(step_views(steps@) =~= step_views(old(steps)@) + merge_if_ready(self.model()));
        }
    }

    /// Appends the final pass to `steps` when it can start.
    fn push_final_pass_if_ready(&self, steps: &mut Vec<Step>)
        requires
            runs_as_planned(self.model(), old(steps)@),
        ensures
            runs_as_planned(self.model(), final(steps)@),
            step_views(final(steps)@) == step_views(old(steps)@) + final_pass_if_ready(
                self.model(),
            ),
    {
        if self.crf.is_some() && self.first_pass_done {
            let log = String::from_str(PASS_LOG_FILE);
            self.push_publish(steps, JobToOverseerMessage::VideoSecondPassProgress(log));
            self.push_run(steps, Stage::VideoSecondPass);
            assert(step_views(steps@) =~= step_views(old(steps)@) + final_pass_if_ready(
                self.model(),
            ));
        } else {
            assert(step_views(steps@) =~= step_views(old(steps)@) + final_pass_if_ready(
                self.model(),
            ));
        }
    }

    /// Ends the job with `e`.
    fn fail(&mut self, e: PipelineError) -> (steps: Vec<Step>)
        requires
            !old(self).ended,
        ensures
            (final(self).model(), step_views(steps@)) == failing(old(self).model(), e),
            runs_as_planned(final(self).model(), steps@),
    {
        self.ended = true;
        let mut steps: Vec<Step> = Vec::new();
        proof {
            lemma_push_step(self.model(), steps@, Step::Failed(e));
        }
        steps.push(Step::Failed(e));
        assert(step_views(steps@) =~= seq![StepView::Failed(e)]);
        steps
    }

    /// The pipeline of a job on `path`, and its first steps: measuring the
    /// first audio track, probing the video size and the analysis pass.
    pub fn new(path: String) -> (r: (Pipeline, Vec<Step>))
        ensures
            r.0.model() == initial_model(path@),
            step_views(r.1@) == seq![
                StepView::Run(Stage::AudioProbe(0)),
                StepView::Run(Stage::VideoProbe),
                StepView::Run(Stage::VideoFirstPass),
            ],
            runs_as_planned(r.0.model(), r.1@),
    {
        let p = Pipeline {
            path,
            scan: AudioTrackScan::new(),
            constants: None,
            audio_outputs: Vec::new(),
            audio_done: false,
            crf: None,
            first_pass_done: false,
            video_done: false,
            ended: false,
        };
        assert(views(p.audio_outputs@) =~= Seq::<Seq<char>>::empty());
        let mut steps: Vec<Step> = Vec::new();
        assert(step_views(steps@) =~= Seq::<StepView>::empty());
        p.push_run(&mut steps, Stage::AudioProbe(0));
        p.push_run(&mut steps, Stage::VideoProbe);
        p.push_run(&mut steps, Stage::VideoFirstPass);
        assert(step_views(steps@) =~= seq![
            StepView::Run(Stage::AudioProbe(0)),
            StepView::Run(Stage::VideoProbe),
            StepView::Run(Stage::VideoFirstPass),
        ]);
        (p, steps)
    }

    /// Takes in what came of `stage` and says what to do next.
    pub fn handle(&mut self, stage: Stage, result: StageResult) -> (steps: Vec<Step>)
        ensures
            (final(self).model(), step_views(steps@)) == advanced(old(self).model(), stage, result),
            runs_as_planned(final(self).model(), steps@),
    {
        if self.ended {
            let steps: Vec<Step> = Vec::new();
            assert(step_views(steps@) =~= Seq::<StepView>::empty());
            return steps;
        }
        let mut steps: Vec<Step> = Vec::new();
        assert(step_views(steps@) =~= Seq::<StepView>::empty());
        match stage {
            Stage::AudioProbe(i) => {
                let r = match result {
                    StageResult::Measured(r) => r,
                    _ => {
                        return self.fail(PipelineError::Unexpected(stage));
                    },
                };
                if self.scan.finished || i != self.scan.next_index() || i == usize::MAX {
                    return self.fail(PipelineError::Unexpected(stage));
                }
                match r {
                    Some(c) => {
                        self.scan.record(Some(c));
                        self.push_run(&mut steps, Stage::AudioProbe(i + 1));
                    },
                    None => {
                        self.scan.record(None);
                        let mut found: Vec<AudioConstants> = Vec::new();
                        std::mem::swap(&mut found, &mut self.scan.constants);
                        let n = found.len();
                        let shared = Arc::new(found);
                        self.constants = Some(Arc::clone(&shared));
                        self.audio_done = n == 0;
                        self.push_publish(
                            &mut steps,
                            JobToOverseerMessage::AudioConstantsDetermined(shared),
                        );
                        if n == 0 {
                            self.push_publish(
                                &mut steps,
                                JobToOverseerMessage::AudioSecondPassFinished,
                            );
                            self.push_merge_if_ready(&mut steps);
                        } else {
                            self.push_run(&mut steps, Stage::AudioEncode(0));
                        }
                    },
                }
            },
            Stage::AudioEncode(i) => {
                let ok = match result {
                    StageResult::Exited(ok, _) => ok,
                    _ => {
                        return self.fail(PipelineError::Unexpected(stage));
                    },
                };
                let n = match &self.constants {
                    Some(c) => c.len(),
                    None => {
                        return self.fail(PipelineError::Unexpected(stage));
                    },
                };
                if self.audio_done || i != self.audio_outputs.len() || i >= n {
                    return self.fail(PipelineError::Unexpected(stage));
                }
                if !ok {
                    return self.fail(PipelineError::ToolFailed(stage));
                }
                let ghost before = self.audio_outputs@;
                let out = audio_output_path(i);
                let ghost out_view = out@;
                self.audio_outputs.push(out);
                assert(views(self.audio_outputs@) =~= views(before).push(out_view));
                self.audio_done = i + 1 == n;
                if i + 1 < n {
                    self.push_run(&mut steps, Stage::AudioEncode(i + 1));
                } else {
                    self.push_publish(&mut steps, JobToOverseerMessage::AudioSecondPassFinished);
                    self.push_merge_if_ready(&mut steps);
                }
            },
            Stage::VideoProbe => {
                let (ok, out) = match result {
                    StageResult::Exited(ok, out) => (ok, out),
                    _ => {
                        return self.fail(PipelineError::Unexpected(stage));
                    },
                };
                if self.crf.is_some() {
                    return self.fail(PipelineError::Unexpected(stage));
                }
                if !ok {
                    return self.fail(PipelineError::ToolFailed(stage));
                }
                let (w, h) = match video_dimensions_from_probe(out.as_str()) {
                    Some(d) => d,
                    None => {
                        return self.fail(PipelineError::Unreadable(stage));
                    },
                };
                let q = crf(w, h);
                self.crf = Some(q);
                self.push_publish(&mut steps, JobToOverseerMessage::VideoDimensionsDetermined(w, h));
                self.push_publish(&mut steps, JobToOverseerMessage::VideoCrfDetermined(q));
                self.push_final_pass_if_ready(&mut steps);
            },
            Stage::VideoFirstPass => {
                let ok = match result {
                    StageResult::Exited(ok, _) => ok,
                    _ => {
                        return self.fail(PipelineError::Unexpected(stage));
                    },
                };
                if self.first_pass_done {
                    return self.fail(PipelineError::Unexpected(stage));
                }
                if !ok {
                    return self.fail(PipelineError::ToolFailed(stage));
                }
                self.first_pass_done = true;
                self.push_publish(&mut steps, JobToOverseerMessage::VideoFirstPassFinished);
                self.push_final_pass_if_ready(&mut steps);
            },
            Stage::VideoSecondPass => {
                let ok = match result {
                    StageResult::Exited(ok, _) => ok,
                    _ => {
                        return self.fail(PipelineError::Unexpected(stage));
                    },
                };
                if self.crf.is_none() || !self.first_pass_done || self.video_done {
                    return self.fail(PipelineError::Unexpected(stage));
                }
                if !ok {
                    return self.fail(PipelineError::ToolFailed(stage));
                }
                self.video_done = true;
                self.push_publish(&mut steps, JobToOverseerMessage::VideoSecondPassFinished);
                self.push_merge_if_ready(&mut steps);
            },
            Stage::Merge => {
                let ok = match result {
                    StageResult::Exited(ok, _) => ok,
                    _ => {
                        return self.fail(PipelineError::Unexpected(stage));
                    },
                };
                if !(self.audio_done && self.video_done) {
                    return self.fail(PipelineError::Unexpected(stage));
                }
                if !ok {
                    return self.fail(PipelineError::ToolFailed(stage));
                }
                self.ended = true;
                let merged = String::from_str(MERGED_OUTPUT);
                proof {
                    lemma_push_step(self.model(), steps@, Step::Finished(merged));
                }
                steps.push(Step::Finished(merged));
            },
        }
        steps
    }
}

/// The stages join before the merge: whenever a step starts the merge, both
/// the audio and the video stage are done.
pub proof fn lemma_merge_after_both_stages(m: PipelineModel, stage: Stage, result: StageResult)
    ensures
        advanced(m, stage, result).1.contains(StepView::Run(Stage::Merge)) ==> advanced(
            m,
            stage,
            result,
        ).0.audio_done && advanced(m, stage, result).0.video_done,
{
    let steps = advanced(m, stage, result).1;
    if steps.contains(StepView::Run(Stage::Merge)) {
        let k = choose|k: int| 0 <= k < steps.len() && steps[k] == StepView::Run(Stage::Merge);
        assert(steps[k] == StepView::Run(Stage::Merge));
    }
}

/// The video stage joins before its final pass: whenever a step starts the
/// final pass, the quality is known and the analysis pass is done.
pub proof fn lemma_final_pass_after_probe_and_analysis(
    m: PipelineModel,
    stage: Stage,
    result: StageResult,
)
    ensures
        advanced(m, stage, result).1.contains(StepView::Run(Stage::VideoSecondPass)) ==> advanced(
            m,
            stage,
            result,
        ).0.crf is Some && advanced(m, stage, result).0.first_pass_done,
{
    let steps = advanced(m, stage, result).1;
    if steps.contains(StepView::Run(Stage::VideoSecondPass)) {
        let k = choose|k: int|
            0 <= k < steps.len() && steps[k] == StepView::Run(Stage::VideoSecondPass);
        assert(steps[k] == StepView::Run(Stage::VideoSecondPass));
    }
}

} // verus!
