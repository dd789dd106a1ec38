//! Settings of the command that runs queued jobs.
use vstd::prelude::*;

verus! {

/// Where the job database and the checkpoint images live, and how many jobs
/// may run at once.
#[derive(Clone, Debug)]
pub struct RunApp {
    pub database: String,
    pub threads: Option<usize>,
    pub state_path: String,
}

impl RunApp {
    /// The number of jobs to run at once: as given, one when not given, and
    /// never less than one.
    pub fn get_threads(&self) -> (r: usize)
        ensures
            r == match self.threads {
                Some(t) => if t >= 1 {
                    t
                } else {
                    1
                },
                None => 1,
            },
    {
        let t = match self.threads {
            Some(t) => t,
            None => 1,
        };
        if t >= 1 {
            t
        } else {
            1
        }
    }
}

} // verus!
