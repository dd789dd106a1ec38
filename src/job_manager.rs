//! The table of a server's jobs and the rules of its requests.
//!
//! A job is whatever the server runs (a future, a handle): the table is
//! generic over it. Whether a job has finished is observed by the caller and
//! handed in.
use crate::status::JobStatus;
use std::collections::HashMap;
use vstd::prelude::*;

verus! {

broadcast use vstd::std_specs::hash::group_hash_axioms;

/// The answer to a request of the server.
#[derive(Clone, Debug)]
pub enum ResponseFromAppToServer {
    Acknowledged,
    Deleted,
    Status(JobStatus),
    NoSuchJob(usize),
    DeleteRequestIgnored(usize),
}

/// A request of the server: start a job on a file, report a job's status,
/// delete a job (by force, or only once it has finished).
#[derive(Clone, Debug)]
pub enum MessageFromServerToApp {
    NewJob(String),
    StatusRequest(usize),
    DeleteJob(usize, bool),
}

/// The jobs of a server, by id.
pub struct JobTable<J> {
    pub jobs: HashMap<usize, J>,
}

impl<J> View for JobTable<J> {
    type V = Map<usize, J>;

    open spec fn view(&self) -> Map<usize, J> {
        self.jobs@
    }
}

impl<J> JobTable<J> {
    /// A table without jobs.
    pub fn new() -> (r: JobTable<J>)
        ensures
            r@ == Map::<usize, J>::empty(),
    {
        JobTable { jobs: HashMap::new() }
    }

    /// Whether a job has the id `id`.
    pub fn contains(&self, id: usize) -> (r: bool)
        ensures
            r == self@.contains_key(id),
    {
        self.jobs.contains_key(&id)
    }

    /// Registers `job` under `id`; a job that had that id is replaced.
    pub fn add_job(&mut self, id: usize, job: J) -> (r: ResponseFromAppToServer)
        ensures
            final(self)@ == old(self)@.insert(id, job),
            r is Acknowledged,
    {
        self.jobs.insert(id, job);
        ResponseFromAppToServer::Acknowledged
    }

    /// Deletes the job `id` when it has finished (as the caller observed,
    /// `finished`) or when `force` is set; keeps it otherwise.
    pub fn delete_job(&mut self, id: usize, force: bool, finished: bool) -> (r:
        ResponseFromAppToServer)
        ensures
            !old(self)@.contains_key(id) ==> final(self)@ == old(self)@ && r
                == ResponseFromAppToServer::NoSuchJob(id),
            old(self)@.contains_key(id) && (finished || force) ==> final(self)@ == old(
                self,
            )@.remove(id) && r is Deleted,
            old(self)@.contains_key(id) && !(finished || force) ==> final(self)@ == old(self)@ && r
                == ResponseFromAppToServer::DeleteRequestIgnored(id),
    {
        let job = match self.jobs.remove(&id) {
            Some(job) => job,
            None => {
                return ResponseFromAppToServer::NoSuchJob(id);
            },
        };
        if finished || force {
            ResponseFromAppToServer::Deleted
        } else {
            self.jobs.insert(id, job);
            assert(self.jobs@ =~= old(self)@);
            ResponseFromAppToServer::DeleteRequestIgnored(id)
        }
    }
}

} // verus!
