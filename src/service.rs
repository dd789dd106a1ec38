//! The decisions of the job status service.
//!
//! The service owns a job's `JobStatus`. A driver polls two channels, stage
//! events first and status requests second, and hands what it received to
//! `StatusService::step`, which updates the record and says what to do: send
//! a snapshot back, or nothing, or stop. The service is `Running` while
//! events can still arrive, `Draining` once the event channel has closed and
//! requests are still answered, and `Stopped` once both channels have closed.
use crate::status::{JobStatus, JobToOverseerMessage, RequestForJobStatus, apply_all};
use vstd::prelude::*;

verus! {

/// What the driver received from the service's channels.
#[derive(Clone, Debug)]
pub enum ServiceInput {
    /// A stage published an event.
    Event(JobToOverseerMessage),
    /// Every stage has dropped its end of the event channel.
    EventsClosed,
    /// A caller asks for a snapshot.
    Request(RequestForJobStatus),
    /// Every caller has dropped its end of the request channel.
    RequestsClosed,
}

/// What the driver is to do after a step.
#[derive(Clone, Debug)]
pub enum ServiceAction {
    /// Nothing to send.
    Idle,
    /// Send this snapshot to the caller whose request was received.
    Reply(JobStatus),
    /// Both channels are closed: leave the loop.
    Stop,
}

/// The phase of the service.
#[derive(Clone, Copy, Debug, PartialEq, Eq, Structural)]
pub enum ServicePhase {
    Running,
    Draining,
    Stopped,
}

/// The state of the status service of one job.
#[derive(Clone, Debug)]
pub struct StatusService {
    pub status: JobStatus,
    pub events_open: bool,
    pub requests_open: bool,
}

impl StatusService {
    /// The service as it starts: a fresh record, both channels open.
    pub open spec fn initial() -> StatusService {
        StatusService { status: JobStatus::fresh(), events_open: true, requests_open: true }
    }

    pub open spec fn phase(self) -> ServicePhase {
        if self.events_open {
            ServicePhase::Running
        } else if self.requests_open {
            ServicePhase::Draining
        } else {
            ServicePhase::Stopped
        }
    }

    /// The state and the action after `input` is handed to `self`.
    pub open spec fn stepped(self, input: ServiceInput) -> (StatusService, ServiceAction) {
        if self.phase() == ServicePhase::Stopped {
            (self, ServiceAction::Stop)
        } else {
            match input {
                ServiceInput::Event(e) => (
                    StatusService { status: self.status.applied(e), ..self },
                    ServiceAction::Idle,
                ),
                ServiceInput::Request(_) => (self, ServiceAction::Reply(self.status)),
                ServiceInput::EventsClosed => {
                    let next = StatusService { events_open: false, ..self };
                    (next, if next.requests_open { ServiceAction::Idle } else { ServiceAction::Stop })
                },
                ServiceInput::RequestsClosed => {
                    let next = StatusService { requests_open: false, ..self };
                    (next, if next.events_open { ServiceAction::Idle } else { ServiceAction::Stop })
                },
            }
        }
    }

    /// A service with a fresh record and both channels open.
    pub fn new() -> (r: StatusService)
        ensures
            r == StatusService::initial(),
    {
        StatusService { status: JobStatus::new(), events_open: true, requests_open: true }
    }

    /// Whether both channels have closed.
    pub fn is_stopped(&self) -> (r: bool)
        ensures
            r == (self.phase() == ServicePhase::Stopped),
    {
        !self.events_open && !self.requests_open
    }

    /// Handles one input: an event updates the record, a request is answered
    /// with a snapshot of the record as it stands, a closed channel moves the
    /// service towards `Stopped`.
    pub fn step(&mut self, input: ServiceInput) -> (action: ServiceAction)
        ensures
            (*final(self), action) == old(self).stepped(input),
    {
        if self.is_stopped() {
            return ServiceAction::Stop;
        }
        match input {
            ServiceInput::Event(e) => {
                self.status.process_update(e);
                ServiceAction::Idle
            },
            ServiceInput::Request(_) => ServiceAction::Reply(self.status.snapshot()),
            ServiceInput::EventsClosed => {
                self.events_open = false;
                if self.requests_open {
                    ServiceAction::Idle
                } else {
                    ServiceAction::Stop
                }
            },
            ServiceInput::RequestsClosed => {
                self.requests_open = false;
                if self.events_open {
                    ServiceAction::Idle
                } else {
                    ServiceAction::Stop
                }
            },
        }
    }
}

/// The state after `inputs` have been handed to `start`, first to last.
pub open spec fn run(start: StatusService, inputs: Seq<ServiceInput>) -> StatusService
    decreases inputs.len(),
{
    if inputs.len() == 0 {
        start
    } else {
        run(start, inputs.drop_last()).stepped(inputs.last()).0
    }
}

/// The events among `inputs`, in order.
pub open spec fn events_in(inputs: Seq<ServiceInput>) -> Seq<JobToOverseerMessage>
    decreases inputs.len(),
{
    if inputs.len() == 0 {
        Seq::empty()
    } else {
        match inputs.last() {
            ServiceInput::Event(e) => events_in(inputs.drop_last()).push(e),
            _ => events_in(inputs.drop_last()),
        }
    }
}

/// Whether the service fed `inputs` from its initial state never stopped.
pub open spec fn never_stopped(inputs: Seq<ServiceInput>) -> bool {
    run(StatusService::initial(), inputs).phase() != ServicePhase::Stopped
}

/// Until the service stops, its record is the fold of exactly the events it
/// has received, in arrival order.
pub proof fn lemma_record_is_fold_of_events(inputs: Seq<ServiceInput>)
    requires
        forall|k: int| 0 <= k < inputs.len() ==> never_stopped(#[trigger] inputs.take(k)),
    ensures
        run(StatusService::initial(), inputs).status == apply_all(
            JobStatus::fresh(),
            events_in(inputs),
        ),
    decreases inputs.len(),
{
    if inputs.len() > 0 {
        let prefix = inputs.drop_last();
        assert forall|k: int| 0 <= k < prefix.len() implies never_stopped(
            #[trigger] prefix.take(k),
        ) by {
            assert(prefix.take(k) == inputs.take(k));
        }
        lemma_record_is_fold_of_events(prefix);
        assert(inputs.take(inputs.len() - 1) == prefix);
        match inputs.last() {
            ServiceInput::Event(e) => {
                assert(events_in(inputs).drop_last() == events_in(prefix));
            },
            _ => {},
        }
    }
}

/// A reply reflects every event received before the request and no later
/// one: the snapshot sent for the request at position `k` is the fold of the
/// events among the inputs before `k`.
pub proof fn lemma_reply_reflects_prior_events(inputs: Seq<ServiceInput>, k: int)
    requires
        0 <= k < inputs.len(),
        inputs[k] is Request,
        forall|m: int| 0 <= m <= k ==> never_stopped(#[trigger] inputs.take(m)),
    ensures
        run(StatusService::initial(), inputs.take(k)).stepped(inputs[k]).1 == ServiceAction::Reply(
            apply_all(JobStatus::fresh(), events_in(inputs.take(k))),
        ),
{
    let before = inputs.take(k);
    assert forall|m: int| 0 <= m < before.len() implies never_stopped(#[trigger] before.take(m)) by {
        assert(before.take(m) == inputs.take(m));
    }
    lemma_record_is_fold_of_events(before);
}

} // verus!
