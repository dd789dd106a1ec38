//! The per-job status record and the rule by which stage events update it.
//!
//! Events are applied in arrival order and each one overwrites exactly one
//! field. The record does not check the order in which events arrive: the
//! stages emit their own events in program order, and a field always holds
//! what the latest event that writes it carried.
use std::sync::Arc;
use vstd::prelude::*;

verus! {

/// Where one track type (audio or video) is in its own pipeline.
#[derive(Clone, Copy, Debug, PartialEq, Eq, Structural)]
pub enum AudioVideoStatus {
    FirstPass,
    SecondPass,
    Finished,
}

/// The loudness measurements of one audio track, as the text that the
/// measuring tool printed for each of them.
#[derive(Clone, Debug)]
pub struct AudioConstants {
    pub input_i: String,
    pub input_tp: String,
    pub input_lra: String,
    pub input_thresh: String,
}

/// A request for a snapshot of the job's status.
#[derive(Clone, Copy, Debug, PartialEq, Eq, Structural)]
pub struct RequestForJobStatus;

/// An event published by a pipeline stage.
#[derive(Clone, Debug)]
pub enum JobToOverseerMessage {
    /// Every audio track has been normalised and encoded.
    AudioSecondPassFinished,
    /// The analysis pass of the video encode is done.
    VideoFirstPassFinished,
    /// The final pass of the video encode is done.
    VideoSecondPassFinished,
    /// The loudness of every audio track has been measured.
    AudioConstantsDetermined(Arc<Vec<AudioConstants>>),
    /// The video stream's width and height are known.
    VideoDimensionsDetermined(usize, usize),
    /// The quality parameter of the final pass is known.
    VideoCrfDetermined(usize),
    /// The final pass writes its progress log at this path.
    VideoSecondPassProgress(String),
}

/// A point-in-time record of a job's progress and of what its stages published.
#[derive(Clone, Debug)]
pub struct JobStatus {
    pub audio: AudioVideoStatus,
    pub video: AudioVideoStatus,
    pub audio_constants: Option<Arc<Vec<AudioConstants>>>,
    pub dimensions: Option<(usize, usize)>,
    pub crf: Option<usize>,
    pub video_conversion_log_path: Option<String>,
}

/// One field of a `JobStatus`.
#[derive(Clone, Copy, Debug, PartialEq, Eq, Structural)]
pub enum StatusField {
    Audio,
    Video,
    AudioConstants,
    Dimensions,
    Crf,
    VideoConversionLogPath,
}

impl JobStatus {
    /// The record of a job that has not published anything yet.
    pub open spec fn fresh() -> JobStatus {
        JobStatus {
            audio: AudioVideoStatus::FirstPass,
            video: AudioVideoStatus::FirstPass,
            audio_constants: None,
            dimensions: None,
            crf: None,
            video_conversion_log_path: None,
        }
    }

    /// The record after `event` has been applied to `self`.
    pub open spec fn applied(self, event: JobToOverseerMessage) -> JobStatus {
        match event {
            JobToOverseerMessage::AudioSecondPassFinished => JobStatus {
                audio: AudioVideoStatus::Finished,
                ..self
            },
            JobToOverseerMessage::VideoFirstPassFinished => JobStatus {
                video: AudioVideoStatus::SecondPass,
                ..self
            },
            JobToOverseerMessage::VideoSecondPassFinished => JobStatus {
                video: AudioVideoStatus::Finished,
                ..self
            },
            JobToOverseerMessage::AudioConstantsDetermined(c) => JobStatus {
                audio_constants: Some(c),
                ..self
            },
            JobToOverseerMessage::VideoDimensionsDetermined(w, h) => JobStatus {
                dimensions: Some((w, h)),
                ..self
            },
            JobToOverseerMessage::VideoCrfDetermined(q) => JobStatus { crf: Some(q), ..self },
            JobToOverseerMessage::VideoSecondPassProgress(p) => JobStatus {
                video_conversion_log_path: Some(p),
                ..self
            },
        }
    }

    /// `self` and `other` hold the same value in `field`.
    pub open spec fn same_field(self, other: JobStatus, field: StatusField) -> bool {
        match field {
            StatusField::Audio => self.audio == other.audio,
            StatusField::Video => self.video == other.video,
            StatusField::AudioConstants => self.audio_constants == other.audio_constants,
            StatusField::Dimensions => self.dimensions == other.dimensions,
            StatusField::Crf => self.crf == other.crf,
            StatusField::VideoConversionLogPath => self.video_conversion_log_path
                == other.video_conversion_log_path,
        }
    }

    /// A fresh record: both track types at their first pass, nothing published.
    pub fn new() -> (r: JobStatus)
        ensures
            r == JobStatus::fresh(),
    {
        JobStatus {
            audio: AudioVideoStatus::FirstPass,
            video: AudioVideoStatus::FirstPass,
            audio_constants: None,
            dimensions: None,
            crf: None,
            video_conversion_log_path: None,
        }
    }

    /// Applies one stage event. No event is rejected.
    pub fn process_update(&mut self, update: JobToOverseerMessage)
        ensures
            *final(self) == old(self).applied(update),
    {
        match update {
            JobToOverseerMessage::AudioSecondPassFinished => self.audio = AudioVideoStatus::Finished,
            JobToOverseerMessage::VideoFirstPassFinished => self.video = AudioVideoStatus::SecondPass,
            JobToOverseerMessage::VideoSecondPassFinished => self.video = AudioVideoStatus::Finished,
            JobToOverseerMessage::AudioConstantsDetermined(c) => self.audio_constants = Some(c),
            JobToOverseerMessage::VideoDimensionsDetermined(w, h) => self.dimensions = Some((w, h)),
            JobToOverseerMessage::VideoCrfDetermined(q) => self.crf = Some(q),
            JobToOverseerMessage::VideoSecondPassProgress(p) => {
                self.video_conversion_log_path = Some(p)
            },
        }
    }

    /// An independent copy of the record; the measured constants are shared.
    pub fn snapshot(&self) -> (r: JobStatus)
        ensures
            r == *self,
    {
        let audio_constants = match &self.audio_constants {
            Some(c) => Some(Arc::clone(c)),
            None => None,
        };
        let video_conversion_log_path = match &self.video_conversion_log_path {
            Some(p) => Some(p.clone()),
            None => None,
        };
        JobStatus {
            audio: self.audio,
            video: self.video,
            audio_constants,
            dimensions: self.dimensions,
            crf: self.crf,
            video_conversion_log_path,
        }
    }
}

/// Whether `event` writes `field`.
pub open spec fn writes(event: JobToOverseerMessage, field: StatusField) -> bool {
    match event {
        JobToOverseerMessage::AudioSecondPassFinished => field == StatusField::Audio,
        JobToOverseerMessage::VideoFirstPassFinished => field == StatusField::Video,
        JobToOverseerMessage::VideoSecondPassFinished => field == StatusField::Video,
        JobToOverseerMessage::AudioConstantsDetermined(_) => field == StatusField::AudioConstants,
        JobToOverseerMessage::VideoDimensionsDetermined(_, _) => field == StatusField::Dimensions,
        JobToOverseerMessage::VideoCrfDetermined(_) => field == StatusField::Crf,
        JobToOverseerMessage::VideoSecondPassProgress(_) => field
            == StatusField::VideoConversionLogPath,
    }
}

/// The record after `events` have been applied to `start`, first to last.
pub open spec fn apply_all(start: JobStatus, events: Seq<JobToOverseerMessage>) -> JobStatus
    decreases events.len(),
{
    if events.len() == 0 {
        start
    } else {
        apply_all(start, events.drop_last()).applied(events.last())
    }
}

/// What one event does to one field: a field that `event` writes holds the
/// same value whatever the record was before; any other field is kept.
proof fn lemma_applied_field(
    s: JobStatus,
    t: JobStatus,
    event: JobToOverseerMessage,
    field: StatusField,
)
    ensures
        writes(event, field) ==> s.applied(event).same_field(t.applied(event), field),
        !writes(event, field) ==> s.applied(event).same_field(s, field),
{
}

/// Agreeing on a field is transitive.
proof fn lemma_same_field_trans(a: JobStatus, b: JobStatus, c: JobStatus, field: StatusField)
    requires
        a.same_field(b, field),
        b.same_field(c, field),
    ensures
        a.same_field(c, field),
{
}

/// The field written by the event at `i`, when no later event writes it,
/// holds what that event alone would have put there.
proof fn lemma_last_writer(
    start: JobStatus,
    events: Seq<JobToOverseerMessage>,
    field: StatusField,
    i: int,
)
    requires
        0 <= i < events.len(),
        writes(events[i], field),
        forall|j: int| i < j < events.len() ==> !writes(#[trigger] events[j], field),
    ensures
        apply_all(start, events).same_field(start.applied(events[i]), field),
    decreases events.len(),
{
    let prefix = events.drop_last();
    let last = events.last();
    lemma_applied_field(apply_all(start, prefix), start, last, field);
    if i < events.len() - 1 {
        assert(!writes(events[events.len() - 1], field));
        assert forall|j: int| i < j < prefix.len() implies !writes(#[trigger] prefix[j], field) by {
            assert(prefix[j] == events[j]);
        }
        assert(prefix[i] == events[i]);
        lemma_last_writer(start, prefix, field, i);
        lemma_same_field_trans(
            apply_all(start, events),
            apply_all(start, prefix),
            start.applied(events[i]),
            field,
        );
    }
}

/// A field that no event writes keeps its starting value.
proof fn lemma_unwritten_field(
    start: JobStatus,
    events: Seq<JobToOverseerMessage>,
    field: StatusField,
)
    requires
        forall|j: int| 0 <= j < events.len() ==> !writes(#[trigger] events[j], field),
    ensures
        apply_all(start, events).same_field(start, field),
    decreases events.len(),
{
    if events.len() > 0 {
        let prefix = events.drop_last();
        assert forall|j: int| 0 <= j < prefix.len() implies !writes(#[trigger] prefix[j], field) by {
            assert(prefix[j] == events[j]);
        }
        assert(!writes(events[events.len() - 1], field));
        lemma_unwritten_field(start, prefix, field);
        lemma_applied_field(apply_all(start, prefix), start, events.last(), field);
        lemma_same_field_trans(apply_all(start, events), apply_all(start, prefix), start, field);
    }
}

/// Last write wins, field by field: after any sequence of events, each field
/// holds what the last event that writes it put there, and a field that no
/// event writes keeps its starting value.
pub proof fn lemma_last_write_wins(
    start: JobStatus,
    events: Seq<JobToOverseerMessage>,
    field: StatusField,
)
    ensures
        forall|i: int|
            #![trigger events[i]]
            0 <= i < events.len() && writes(events[i], field) && (forall|j: int|
                i < j < events.len() ==> !writes(#[trigger] events[j], field)) ==> apply_all(
                start,
                events,
            ).same_field(start.applied(events[i]), field),
        (forall|j: int| 0 <= j < events.len() ==> !writes(#[trigger] events[j], field))
            ==> apply_all(start, events).same_field(start, field),
{
    assert forall|i: int|
        #![trigger events[i]]
        0 <= i < events.len() && writes(events[i], field) && (forall|j: int|
            i < j < events.len() ==> !writes(#[trigger] events[j], field)) implies apply_all(
        start,
        events,
    ).same_field(start.applied(events[i]), field) by {
        lemma_last_writer(start, events, field, i);
    }
    if forall|j: int| 0 <= j < events.len() ==> !writes(#[trigger] events[j], field) {
        lemma_unwritten_field(start, events, field);
    }
}

} // verus!
