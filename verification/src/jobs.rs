//! Background jobs: the controller's durable record of asynchronous work
//! and the transitions it moves through.

use vstd::prelude::*;

verus! {

/// Kind of a background job.
#[derive(Clone, Copy, Debug, PartialEq, Eq, Structural)]
pub enum JobType {
    ImagePull,
}

/// Lifecycle status of a background job.
#[derive(Clone, Copy, Debug, PartialEq, Eq, Structural)]
pub enum JobStatus {
    Pending,
    Running,
    Completed,
    Failed,
}

/// The structured result a completed image-pull job records.
#[derive(Debug)]
pub struct JobResult {
    pub digest: String,
}

/// A background job record. Timestamps are the store's concern and live
/// with it, outside the library.
#[derive(Debug)]
pub struct Job {
    pub id: String,
    pub job_type: JobType,
    pub status: JobStatus,
    pub description: Option<String>,
    pub resource_id: Option<String>,
    pub resource_type: Option<String>,
    pub progress: Option<i32>,
    pub result: Option<JobResult>,
    pub error: Option<String>,
}

/// A job to insert.
#[derive(Debug)]
pub struct NewJob {
    pub job_type: JobType,
    pub description: Option<String>,
    pub resource_id: Option<String>,
    pub resource_type: Option<String>,
}

impl NewJob {
    /// The freshly inserted record: pending, with no progress, result or
    /// error yet.
    pub fn into_job(self, id: String) -> (r: Job)
        ensures
            r.id == id,
            r.job_type == self.job_type,
            r.status == JobStatus::Pending,
            r.description == self.description,
            r.resource_id == self.resource_id,
            r.resource_type == self.resource_type,
            r.progress is None,
            r.result is None,
            r.error is None,
    {
        Job {
            id,
            job_type: self.job_type,
            status: JobStatus::Pending,
            description: self.description,
            resource_id: self.resource_id,
            resource_type: self.resource_type,
            progress: None,
            result: None,
            error: None,
        }
    }
}

impl Job {
    /// Marks the job as started.
    pub fn mark_running(self) -> (r: Job)
        ensures
            r == (Job { status: JobStatus::Running, ..self }),
    {
        Job { status: JobStatus::Running, ..self }
    }

    /// Records progress, out of one hundred.
    pub fn update_progress(self, progress: i32) -> (r: Job)
        ensures
            r == (Job { progress: Some(progress), ..self }),
    {
        Job { progress: Some(progress), ..self }
    }

    /// Marks the job as completed, with full progress and its result.
    pub fn mark_completed(self, result: Option<JobResult>) -> (r: Job)
        ensures
            r == (Job { status: JobStatus::Completed, progress: Some(100i32), result, ..self }),
    {
        Job { status: JobStatus::Completed, progress: Some(100), result, ..self }
    }

    /// Marks the job as failed with its error message.
    pub fn mark_failed(self, error: String) -> (r: Job)
        ensures
            r == (Job { status: JobStatus::Failed, error: Some(error), ..self }),
    {
        Job { status: JobStatus::Failed, error: Some(error), ..self }
    }
}

} // verus!
