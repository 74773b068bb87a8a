//! Records of job runs.

use vstd::prelude::*;

verus! {

/// One run of a job.
#[derive(Debug, Clone)]
pub struct JobRun {
    pub id: i64,
    pub job_type: String,
    pub status: String,
    pub started_at: i128,
    pub finished_at: Option<i128>,
    pub error_message: Option<String>,
}

impl JobRun {
    /// A field-for-field copy of the run.
    pub fn copy(&self) -> (res: JobRun)
        ensures
            res == *self,
    {
        JobRun {
            id: self.id,
            job_type: self.job_type.clone(),
            status: self.status.clone(),
            started_at: self.started_at,
            finished_at: self.finished_at,
            error_message: match &self.error_message {
                Some(e) => Some(e.clone()),
                None => None,
            },
        }
    }
}

} // verus!
