use vstd::prelude::*;

use crate::state::{JobState, JobStateReason};
use vstd::slice::slice_to_vec;

verus! {

/// A print job: what a client submitted, under the id and address the printer gave it.
#[derive(Debug)]
pub struct Job {
    pub id: u32,
    pub uri: String,
    pub state: JobState,
    pub state_reasons: Vec<JobStateReason>,
    pub data: Vec<u8>,
}

/// What a [`Job`] holds, with its texts and lists as sequences.
pub struct JobView {
    pub id: u32,
    pub uri: Seq<char>,
    pub state: JobState,
    pub state_reasons: Seq<JobStateReason>,
    pub data: Seq<u8>,
}

impl View for Job {
    type V = JobView;

    open spec fn view(&self) -> JobView {
        JobView {
            id: self.id,
            uri: self.uri@,
            state: self.state,
            state_reasons: self.state_reasons@,
            data: self.data@,
        }
    }
}

impl Job {
    /// A new job, waiting to be processed.
    pub fn new(id: u32, uri: String, data: &[u8]) -> (r: Job)
        ensures
            r.id == id,
            r.uri == uri,
            r.state == JobState::Pending,
            r.state_reasons@ == seq![JobStateReason::NoReason],
            r.data@ == data@,
    {
        let mut state_reasons: Vec<JobStateReason> = Vec::new();
        state_reasons.push(JobStateReason::NoReason);
        Job { id, uri, state: JobState::Pending, state_reasons, data: slice_to_vec(data) }
    }
}

impl Clone for Job {
    fn clone(&self) -> (r: Job)
        ensures
            r@ == self@,
    {
        let state_reasons = self.state_reasons.clone();
        let data = self.data.clone();
        assert(state_reasons@ =~= self.state_reasons@);
        assert(data@ =~= self.data@);
        Job { id: self.id, uri: self.uri.clone(), state: self.state, state_reasons, data }
    }
}

} // verus!
