//! The worker: it runs the jobs of a plan one after the other. This
//! module holds its decisions; whoever drives it performs each action and
//! hands back what came of it.

use vstd::prelude::*;
use crate::executor::command_output::{
    CommandExecInfo, CommandExecInfoView, CommandOutputLine, CommandOutputLineView, ProcessStatus,
};
use crate::executor::execution_plan::{ExecutionItem, ExecutionItemView, ExecutionPlan};
use crate::executor::job::{
    description_of, file_request_of, given_name, invocation_of, job_of, FileRequest,
    FileRequestView, Invocation, InvocationView, Job, JobView,
};
use crate::executor::job_location::{JobLocation, JobLocationView};
use crate::fenced_attributes::attributes::fresh_id;
use crate::text::opt_text;

verus! {

/// What is asked of the worker.
#[derive(Debug, Clone, Copy, PartialEq, Eq, Structural)]
pub struct Task {
    pub backtrace: bool,
}

impl Default for Task {
    fn default() -> (res: Task)
        ensures
            !res.backtrace,
    {
        Task { backtrace: false }
    }
}

/// What came of the last action.
#[derive(Debug, PartialEq, Eq)]
pub enum WorkerEvent {
    /// The worker starts.
    Begin,
    /// An event was handed to the consumer's channel, or the consumer is
    /// gone.
    Sent { delivered: bool },
    /// The generated file was written, or it was not and this is why.
    Written { error: Option<String> },
    /// The process was launched, or it was not and this is why.
    Launched { error: Option<String> },
    /// The process wrote a line.
    Line(CommandOutputLine),
    /// Both streams are at their end and the process was waited for; no
    /// status where the wait failed.
    Exited { status: Option<ProcessStatus> },
    /// Reading the process's output failed.
    TaskFailed(String),
    /// The generated file was removed, or it could not be.
    Removed { ok: bool },
    /// The stop signal came.
    Stop,
}

pub enum WorkerEventView {
    Begin,
    Sent { delivered: bool },
    Written { error: Option<Seq<char>> },
    Launched { error: Option<Seq<char>> },
    Line(CommandOutputLineView),
    Exited { status: Option<ProcessStatus> },
    TaskFailed(Seq<char>),
    Removed { ok: bool },
    Stop,
}

impl View for WorkerEvent {
    type V = WorkerEventView;

    open spec fn view(&self) -> WorkerEventView {
        match *self {
            WorkerEvent::Begin => WorkerEventView::Begin,
            WorkerEvent::Sent { delivered } => WorkerEventView::Sent { delivered },
            WorkerEvent::Written { error } => WorkerEventView::Written { error: opt_text(error) },
            WorkerEvent::Launched { error } => WorkerEventView::Launched { error: opt_text(error) },
            WorkerEvent::Line(line) => WorkerEventView::Line(line@),
            WorkerEvent::Exited { status } => WorkerEventView::Exited { status },
            WorkerEvent::TaskFailed(reason) => WorkerEventView::TaskFailed(reason@),
            WorkerEvent::Removed { ok } => WorkerEventView::Removed { ok },
            WorkerEvent::Stop => WorkerEventView::Stop,
        }
    }
}

/// What the worker asks for next.
#[derive(Debug, PartialEq, Eq)]
pub enum WorkerAction {
    /// Hand this event to the consumer's channel; answer with `Sent`.
    Send(CommandExecInfo),
    /// Create the directory if it is absent and write the file; answer
    /// with `Written`.
    WriteFile(FileRequest),
    /// Launch this process with its standard input closed, its stderr
    /// piped, its stdout piped if `capture_stdout`, and so that it is
    /// killed when its handle is dropped; answer with `Launched`.
    Launch { invocation: Invocation, capture_stdout: bool },
    /// Read on from the process's output: answer with `Line` for the next
    /// line of either stream, with `Exited` once both are at their end,
    /// or with `TaskFailed`.
    Stream,
    /// Remove this file; answer with `Removed`.
    RemoveFile(String),
    /// Wait for the stop signal; answer with `Stop`.
    Park,
    /// Kill the process and end the worker.
    Abort,
    /// End the worker.
    Exit,
}

pub enum WorkerActionView {
    Send(CommandExecInfoView),
    WriteFile(FileRequestView),
    Launch { invocation: InvocationView, capture_stdout: bool },
    Stream,
    RemoveFile(Seq<char>),
    Park,
    Abort,
    Exit,
}

impl View for WorkerAction {
    type V = WorkerActionView;

    open spec fn view(&self) -> WorkerActionView {
        match *self {
            WorkerAction::Send(info) => WorkerActionView::Send(info@),
            WorkerAction::WriteFile(request) => WorkerActionView::WriteFile(request@),
            WorkerAction::Launch { invocation, capture_stdout } => WorkerActionView::Launch {
                invocation: invocation@,
                capture_stdout,
            },
            WorkerAction::Stream => WorkerActionView::Stream,
            WorkerAction::RemoveFile(path) => WorkerActionView::RemoveFile(path@),
            WorkerAction::Park => WorkerActionView::Park,
            WorkerAction::Abort => WorkerActionView::Abort,
            WorkerAction::Exit => WorkerActionView::Exit,
        }
    }
}

/// Where the worker stands: which answer it waits for.
#[derive(Debug)]
pub enum Phase {
    /// It has not begun.
    Ready,
    /// A line of the document is on its way to the consumer.
    OutputSent,
    /// The file of `job` is being written at `path`.
    Writing { job: Job, path: String },
    /// The report of a job that could not be launched is on its way.
    FailureSent,
    /// The process of `job` is being launched.
    Launching { job: Job },
    /// The start of `job` is being announced.
    StartSent { job: Job },
    /// The output of `job` is being read.
    Streaming { job: Job },
    /// A line of `job` is on its way to the consumer.
    LineSent { job: Job },
    /// The end of `job` is on its way to the consumer.
    EndSent { job: Job },
    /// The file of a job is being removed.
    Removing,
    /// The plan is exhausted; the worker waits for the stop signal.
    Parked,
    /// The worker has ended.
    Done,
}

pub enum PhaseView {
    Ready,
    OutputSent,
    Writing { job: JobView, path: Seq<char> },
    FailureSent,
    Launching { job: JobView },
    StartSent { job: JobView },
    Streaming { job: JobView },
    LineSent { job: JobView },
    EndSent { job: JobView },
    Removing,
    Parked,
    Done,
}

impl View for Phase {
    type V = PhaseView;

    open spec fn view(&self) -> PhaseView {
        match *self {
            Phase::Ready => PhaseView::Ready,
            Phase::OutputSent => PhaseView::OutputSent,
            Phase::Writing { job, path } => PhaseView::Writing { job: job@, path: path@ },
            Phase::FailureSent => PhaseView::FailureSent,
            Phase::Launching { job } => PhaseView::Launching { job: job@ },
            Phase::StartSent { job } => PhaseView::StartSent { job: job@ },
            Phase::Streaming { job } => PhaseView::Streaming { job: job@ },
            Phase::LineSent { job } => PhaseView::LineSent { job: job@ },
            Phase::EndSent { job } => PhaseView::EndSent { job: job@ },
            Phase::Removing => PhaseView::Removing,
            Phase::Parked => PhaseView::Parked,
            Phase::Done => PhaseView::Done,
        }
    }
}

impl PhaseView {
    /// The job that the worker is busy with, if any.
    pub open spec fn job(self) -> Option<JobView> {
        match self {
            PhaseView::Writing { job, path } => Some(job),
            PhaseView::Launching { job } => Some(job),
            PhaseView::StartSent { job } => Some(job),
            PhaseView::Streaming { job } => Some(job),
            PhaseView::LineSent { job } => Some(job),
            PhaseView::EndSent { job } => Some(job),
            _ => None,
        }
    }
}

/// The worker's state.
pub struct ExecutorView {
    pub location: JobLocationView,
    pub plan: Seq<ExecutionItemView>,
    pub keep_files: bool,
    pub phase: PhaseView,
}

/// A state and the action that leads out of it.
pub struct Step {
    pub state: ExecutorView,
    pub action: WorkerActionView,
}

/// The worker ends.
pub open spec fn finish(state: ExecutorView, action: WorkerActionView) -> Step {
    Step { state: ExecutorView { phase: PhaseView::Done, ..state }, action }
}

/// The worker moves to `phase` with `action`.
pub open spec fn advance(state: ExecutorView, phase: PhaseView, action: WorkerActionView) -> Step {
    Step { state: ExecutorView { phase, ..state }, action }
}

/// The words that report a failure: what failed, then why.
pub open spec fn failure(what: Seq<char>, why: Seq<char>) -> WorkerActionView {
    WorkerActionView::Send(CommandExecInfoView::Error(what + why))
}

/// Takes the next item of the plan. A line of the document goes to the
/// consumer. A fragment with a code chunk becomes a job, whose file is
/// written first, under the id of its attributes or else under `name`.
/// A fragment without a code chunk is passed over. With the plan
/// exhausted the worker parks.
pub open spec fn fetch(state: ExecutorView, name: Seq<char>) -> Step
    decreases state.plan.len(),
{
    if state.plan.len() == 0 {
        advance(state, PhaseView::Parked, WorkerActionView::Park)
    } else {
        let rest = ExecutorView { plan: state.plan.drop_first(), ..state };
        match state.plan[0] {
            ExecutionItemView::Execute(executable) => match job_of(state.location, executable) {
                Some(job) => {
                    let request = file_request_of(
                        job,
                        match given_name(job) {
                            Some(id) => id,
                            None => name,
                        },
                    );
                    advance(
                        rest,
                        PhaseView::Writing { job, path: request.path },
                        WorkerActionView::WriteFile(request),
                    )
                },
                None => fetch(rest, name),
            },
            item => advance(
                rest,
                PhaseView::OutputSent,
                WorkerActionView::Send(CommandExecInfoView::Output(item)),
            ),
        }
    }
}

/// The process of a job whose file stands at `path`: the file is its
/// last argument.
pub open spec fn launch_of(job: JobView, path: Seq<char>) -> WorkerActionView {
    let invocation = invocation_of(job);
    WorkerActionView::Launch {
        invocation: InvocationView { args: invocation.args + seq![path], ..invocation },
        capture_stdout: job.need_stdout,
    }
}

/// What the worker does on `event` in `state`. `name` is the fresh token
/// for a file whose job has no id. An event that the phase does not wait
/// for ends the worker.
pub open spec fn step_of(state: ExecutorView, event: WorkerEventView, name: Seq<char>) -> Step {
    match (state.phase, event) {
        (PhaseView::Ready, WorkerEventView::Begin) => fetch(state, name),
        (PhaseView::OutputSent, WorkerEventView::Sent { delivered }) => fetch(state, name),
        (PhaseView::Writing { job, path }, WorkerEventView::Written { error: None }) => advance(
            state,
            PhaseView::Launching { job: JobView { file_path: Some(path), ..job } },
            launch_of(job, path),
        ),
        (PhaseView::Writing { job, path }, WorkerEventView::Written { error: Some(why) }) => advance(
            state,
            PhaseView::FailureSent,
            failure("failed to write file: "@, why),
        ),
        (PhaseView::FailureSent, WorkerEventView::Sent { delivered: true }) => fetch(state, name),
        (PhaseView::Launching { job }, WorkerEventView::Launched { error: None }) => advance(
            state,
            PhaseView::StartSent { job },
            WorkerActionView::Send(CommandExecInfoView::Start),
        ),
        (PhaseView::Launching { job }, WorkerEventView::Launched { error: Some(why) }) => advance(
            state,
            PhaseView::FailureSent,
            failure("failed to start task: "@, why + " job: "@ + description_of(job)),
        ),
        (PhaseView::StartSent { job }, WorkerEventView::Sent { delivered }) => advance(
            state,
            PhaseView::Streaming { job },
            WorkerActionView::Stream,
        ),
        (PhaseView::Streaming { job }, WorkerEventView::Line(line)) => advance(
            state,
            PhaseView::LineSent { job },
            WorkerActionView::Send(CommandExecInfoView::Line(line)),
        ),
        (PhaseView::Streaming { job }, WorkerEventView::Exited { status }) => advance(
            state,
            PhaseView::EndSent { job },
            WorkerActionView::Send(CommandExecInfoView::End { status }),
        ),
        (PhaseView::Streaming { job }, WorkerEventView::TaskFailed(why)) => advance(
            state,
            PhaseView::EndSent { job },
            failure("failed to execute task: "@, why),
        ),
        (PhaseView::LineSent { job }, WorkerEventView::Sent { delivered: true }) => advance(
            state,
            PhaseView::Streaming { job },
            WorkerActionView::Stream,
        ),
        (PhaseView::LineSent { job }, WorkerEventView::Sent { delivered: false }) => finish(
            state,
            WorkerActionView::Abort,
        ),
        (PhaseView::EndSent { job }, WorkerEventView::Sent { delivered: true }) => {
            if state.keep_files {
                fetch(state, name)
            } else {
                match job.file_path {
                    Some(path) => advance(
                        state,
                        PhaseView::Removing,
                        WorkerActionView::RemoveFile(path),
                    ),
                    None => fetch(state, name),
                }
            }
        },
        (PhaseView::Removing, WorkerEventView::Removed { ok: true }) => fetch(state, name),
        _ => finish(state, WorkerActionView::Exit),
    }
}

/// an executor that runs the jobs of a plan in order and reports what
/// they write and how they end
#[derive(Debug)]
pub struct Executor {
    location: JobLocation,
    plan: ExecutionPlan,
    keep_files: bool,
    phase: Phase,
}

impl View for Executor {
    type V = ExecutorView;

    closed spec fn view(&self) -> ExecutorView {
        ExecutorView {
            location: self.location@,
            plan: self.plan@,
            keep_files: self.keep_files,
            phase: self.phase@,
        }
    }
}

impl Executor {
    /// A job that the worker is busy with has an executable token.
    pub closed spec fn well_formed(&self) -> bool {
        self.phase@.job() matches Some(job) ==> job.command.len() > 0
    }

    /// A worker for `execution_plan` in `location`. With `keep_files` the
    /// generated files stay after their jobs.
    pub fn new(location: JobLocation, execution_plan: ExecutionPlan, keep_files: bool) -> (res:
        Executor)
        ensures
            res.well_formed(),
            res@ == (ExecutorView {
                location: location@,
                plan: execution_plan@,
                keep_files,
                phase: PhaseView::Ready,
            }),
    {
        Executor { location, plan: execution_plan, keep_files, phase: Phase::Ready }
    }

    /// Whether the worker has ended.
    pub fn is_done(&self) -> (res: bool)
        ensures
            res == (self@.phase is Done),
    {
        match &self.phase {
            Phase::Done => true,
            _ => false,
        }
    }

    /// How many items of the plan are left.
    pub fn remaining(&self) -> (res: usize)
        ensures
            res == self@.plan.len(),
    {
        self.plan.plan.len()
    }

    fn fetch_next(&mut self, name: &str) -> (res: WorkerAction)
        ensures
            final(self).well_formed(),
            (Step { state: final(self)@, action: res@ }) == fetch(old(self)@, name@),
    {
        let ghost start = self@;
        loop
            invariant
                start == old(self)@,
                fetch(self@, name@) == fetch(start, name@),
            decreases self.plan@.len(),
        {
            match self.plan.next() {
                None => {
                    self.phase = Phase::Parked;
                    return WorkerAction::Park;
                },
                Some(ExecutionItem::Execute(executable)) => {
                    match Job::new(&self.location, &executable) {
                        Some(job) => {
                            let chosen = job.file_name_or(name);
                            let request = job.file_request(chosen.as_str());
                            self.phase = Phase::Writing { job, path: request.path.clone() };
                            return WorkerAction::WriteFile(request);
                        },
                        None => {},
                    }
                },
                Some(item) => {
                    self.phase = Phase::OutputSent;
                    return WorkerAction::Send(CommandExecInfo::Output(item));
                },
            }
        }
    }

    fn fail(what: &str, why: &str) -> (res: WorkerAction)
        ensures
            res@ == failure(what@, why@),
    {
        WorkerAction::Send(CommandExecInfo::Error(what.to_owned().concat(why)))
    }

    /// Serves one event: moves to the next phase and says what to do.
    /// `name` names the generated file of a job whose attributes have no
    /// id.
    pub fn step_with(&mut self, event: WorkerEvent, name: &str) -> (res: WorkerAction)
        requires
            old(self).well_formed(),
        ensures
            final(self).well_formed(),
            (Step { state: final(self)@, action: res@ }) == step_of(old(self)@, event@, name@),
    {
        let mut phase = Phase::Done;
        std::mem::swap(&mut self.phase, &mut phase);
        proof {
            lemma_fetch_ignores_phase(self@, old(self)@, name@);
        }
        match (phase, event) {
            (Phase::Ready, WorkerEvent::Begin) => self.fetch_next(name),
            (Phase::OutputSent, WorkerEvent::Sent { delivered }) => self.fetch_next(name),
            (Phase::Writing { job, path }, WorkerEvent::Written { error: None }) => {
                let mut job = job;
                let mut invocation = job.get_command();
                let capture_stdout = job.need_stdout();
                let ghost before = invocation@.args;
                invocation.args.push(path.clone());
                assert(invocation@.args =~= before + seq![path@]);
                job.file_written(path);
                self.phase = Phase::Launching { job };
                WorkerAction::Launch { invocation, capture_stdout }
            },
            (Phase::Writing { job, path }, WorkerEvent::Written { error: Some(why) }) => {
                self.phase = Phase::FailureSent;
                Executor::fail("failed to write file: ", why.as_str())
            },
            (Phase::FailureSent, WorkerEvent::Sent { delivered: true }) => self.fetch_next(name),
            (Phase::Launching { job }, WorkerEvent::Launched { error: None }) => {
                self.phase = Phase::StartSent { job };
                WorkerAction::Send(CommandExecInfo::Start)
            },
            (Phase::Launching { job }, WorkerEvent::Launched { error: Some(why) }) => {
                let described = job.description();
                let reason = why.concat(" job: ").concat(described.as_str());
                self.phase = Phase::FailureSent;
                Executor::fail("failed to start task: ", reason.as_str())
            },
            (Phase::StartSent { job }, WorkerEvent::Sent { delivered }) => {
                self.phase = Phase::Streaming { job };
                WorkerAction::Stream
            },
            (Phase::Streaming { job }, WorkerEvent::Line(line)) => {
                self.phase = Phase::LineSent { job };
                WorkerAction::Send(CommandExecInfo::Line(line))
            },
            (Phase::Streaming { job }, WorkerEvent::Exited { status }) => {
                self.phase = Phase::EndSent { job };
                WorkerAction::Send(CommandExecInfo::End { status })
            },
            (Phase::Streaming { job }, WorkerEvent::TaskFailed(why)) => {
                self.phase = Phase::EndSent { job };
                Executor::fail("failed to execute task: ", why.as_str())
            },
            (Phase::LineSent { job }, WorkerEvent::Sent { delivered: true }) => {
                self.phase = Phase::Streaming { job };
                WorkerAction::Stream
            },
            (Phase::LineSent { job }, WorkerEvent::Sent { delivered: false }) => WorkerAction::Abort,
            (Phase::EndSent { job }, WorkerEvent::Sent { delivered: true }) => {
                if self.keep_files {
                    self.fetch_next(name)
                } else {
                    match job.file_path() {
                        Some(path) => {
                            self.phase = Phase::Removing;
                            WorkerAction::RemoveFile(path)
                        },
                        None => self.fetch_next(name),
                    }
                }
            },
            (Phase::Removing, WorkerEvent::Removed { ok: true }) => self.fetch_next(name),
            _ => WorkerAction::Exit,
        }
    }

    /// Serves one event: moves to the next phase and says what to do. A
    /// job whose attributes have no id gets a fresh unique name for its
    /// file.
    pub fn step(&mut self, event: WorkerEvent) -> (res: WorkerAction)
        requires
            old(self).well_formed(),
        ensures
            final(self).well_formed(),
            exists|name: Seq<char>|
                (Step { state: final(self)@, action: res@ }) == #[trigger] step_of(
                    old(self)@,
                    event@,
                    name,
                ),
    {
        let name = fresh_id();
        self.step_with(event, name.as_str())
    }
}

/// Taking the next item never adds to the plan, and a line of the
/// document that comes first is handed to the consumer as it is.
pub proof fn lemma_fetch(state: ExecutorView, name: Seq<char>)
    ensures
        fetch(state, name).state.plan.len() <= state.plan.len(),
        fetch(state, name).state.location == state.location,
        fetch(state, name).state.keep_files == state.keep_files,
        state.plan.len() > 0 && !(state.plan[0] is Execute) ==> fetch(state, name).action
            == WorkerActionView::Send(CommandExecInfoView::Output(state.plan[0])) && fetch(
            state,
            name,
        ).state.plan == state.plan.drop_first(),
        state.plan.len() == 0 ==> fetch(state, name).action == WorkerActionView::Park,
    decreases state.plan.len(),
{
    if state.plan.len() > 0 {
        lemma_fetch(ExecutorView { plan: state.plan.drop_first(), ..state }, name);
    }
}

/// Jobs run one after the other: from the launch of a job until its end
/// is reported, no step takes an item from the plan, and the worker
/// stays with this job or ends. The start of a job is announced only
/// after its launch, and its lines and its end only while its output is
/// read. The worker never reports an interruption.
pub proof fn lemma_one_job_at_a_time(state: ExecutorView, event: WorkerEventView, name: Seq<char>)
    ensures
        state.phase is Launching || state.phase is StartSent || state.phase is Streaming
            || state.phase is LineSent ==> {
            let step = step_of(state, event, name);
            &&& step.state.plan == state.plan
            &&& step.state.phase is Done || step.state.phase is FailureSent
                || step.state.phase.job() == state.phase.job()
        },
        step_of(state, event, name).action == WorkerActionView::Send(CommandExecInfoView::Start)
            ==> state.phase is Launching && step_of(state, event, name).state.phase is StartSent,
        step_of(state, event, name).action matches WorkerActionView::Send(
            CommandExecInfoView::End { status },
        ) ==> state.phase is Streaming && step_of(state, event, name).state.phase is EndSent,
        step_of(state, event, name).action matches WorkerActionView::Send(
            CommandExecInfoView::Line(line),
        ) ==> state.phase is Streaming && step_of(state, event, name).state.phase is LineSent,
        step_of(state, event, name).action != WorkerActionView::Send(
            CommandExecInfoView::Interruption,
        ),
{
    lemma_fetch(state, name);
    lemma_fetch_sends_only_lines(state, name);
}

/// Taking the next item sends nothing but a line of the document.
pub proof fn lemma_fetch_sends_only_lines(state: ExecutorView, name: Seq<char>)
    ensures
        fetch(state, name).action matches WorkerActionView::Send(info) ==> info is Output,
        fetch(state, name).state.phase is Parked || fetch(state, name).state.phase is OutputSent
            || fetch(state, name).state.phase is Writing,
    decreases state.plan.len(),
{
    if state.plan.len() > 0 {
        lemma_fetch_sends_only_lines(ExecutorView { plan: state.plan.drop_first(), ..state }, name);
    }
}

/// What the worker takes next does not depend on the phase it is in.
pub proof fn lemma_fetch_ignores_phase(a: ExecutorView, b: ExecutorView, name: Seq<char>)
    requires
        a.location == b.location,
        a.plan == b.plan,
        a.keep_files == b.keep_files,
    ensures
        fetch(a, name) == fetch(b, name),
    decreases a.plan.len(),
{
    if a.plan.len() > 0 {
        lemma_fetch_ignores_phase(
            ExecutorView { plan: a.plan.drop_first(), ..a },
            ExecutorView { plan: b.plan.drop_first(), ..b },
            name,
        );
    }
}

} // verus!
