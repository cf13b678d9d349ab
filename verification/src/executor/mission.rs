//! A job together with its name and its workspace.

use vstd::prelude::*;
use crate::cli::action::Action;
use crate::executor::job::{Job, JobView};
use crate::executor::mission_location::MissionLocation;

verus! {

/// the description of a mission: a job, its name and where it runs
#[derive(Debug)]
pub struct Mission {
    pub location_name: String,
    pub job_name: String,
    pub workspace_root: String,
    job: Job,
}

pub struct MissionView {
    pub location_name: Seq<char>,
    pub job_name: Seq<char>,
    pub workspace_root: Seq<char>,
    pub job: JobView,
}

impl View for Mission {
    type V = MissionView;

    closed spec fn view(&self) -> MissionView {
        MissionView {
            location_name: self.location_name@,
            job_name: self.job_name@,
            workspace_root: self.workspace_root@,
            job: self.job@,
        }
    }
}

impl Mission {
    /// The mission of `job` under `job_name` in the workspace of
    /// `location`. The location has no name.
    pub fn new(location: &MissionLocation, job_name: String, job: Job) -> (res: Mission)
        ensures
            res@ == (MissionView {
                location_name: Seq::empty(),
                job_name: job_name@,
                workspace_root: location@.workspace_root,
                job: job@,
            }),
    {
        Mission {
            location_name: String::new(),
            job_name,
            workspace_root: location.workspace_root.clone(),
            job,
        }
    }

    /// The name of the location.
    pub fn location_name(&self) -> (res: &str)
        ensures
            res@ == self@.location_name,
    {
        self.location_name.as_str()
    }

    /// The name of the job.
    pub fn job_name(&self) -> (res: &str)
        ensures
            res@ == self@.job_name,
    {
        self.job_name.as_str()
    }

    /// The directory in which the job runs.
    pub fn workspace_root(&self) -> (res: &str)
        ensures
            res@ == self@.workspace_root,
    {
        self.workspace_root.as_str()
    }

    /// The job of the mission.
    pub fn job(&self) -> (res: &Job)
        ensures
            res@ == self@.job,
    {
        &self.job
    }

    /// the action bound to success on this job
    pub fn on_success(&self) -> (res: &Option<Action>)
        ensures
            *res == self@.job.on_success,
    {
        self.job.on_success()
    }

    pub fn allow_warnings(&self) -> (res: bool)
        ensures
            res == self@.job.allow_warnings,
    {
        self.job.allow_warnings()
    }

    /// whether we need stdout and not just stderr
    pub fn need_stdout(&self) -> (res: bool)
        ensures
            res == self@.job.need_stdout,
    {
        self.job.need_stdout()
    }
}

} // verus!
