//! One launch of an external process, derived from a fragment.

use vstd::prelude::*;
use crate::cli::action::Action;
use crate::executor::executable::{Executable, ExecutableView};
use crate::executor::job_location::{join, joined, JobLocation, JobLocationView};
use crate::fenced_attributes::attributes::fresh_id;
use crate::text::{clone_opt_string, clone_strings, opt_text};

verus! {

/// The directory, inside the workspace, that holds the generated files.
pub const BUILD_DIR: &'static str = ".mrbuild";

/// The command in front of a privileged one.
pub const SUDO: &'static str = "sudo";

/// One of the possible jobs that can be run
#[derive(Debug)]
pub struct Job {
    /// The tokens making the command to execute (the first one is the
    /// executable). A job made by `Job::new` has exactly one.
    pub command: Vec<String>,
    /// whether we need to capture stdout too (stderr is always captured)
    pub need_stdout: bool,
    /// the optional action to run when there's no error
    pub on_success: Option<Action>,
    /// whether to consider that we have a success when we only have
    /// warnings
    pub allow_warnings: bool,
    /// whether to consider that we have a success when we get errors
    pub allow_errors: bool,
    /// executable meta data, including the code chunk and the attributes
    pub executable: Executable,
    /// the location of the job
    pub location: JobLocation,
    /// the build file location after it's created
    file_path: Option<String>,
    /// should the job run in sudo
    sudo: bool,
}

pub struct JobView {
    pub command: Seq<Seq<char>>,
    pub need_stdout: bool,
    pub on_success: Option<Action>,
    pub allow_warnings: bool,
    pub allow_errors: bool,
    pub executable: ExecutableView,
    pub location: JobLocationView,
    pub file_path: Option<Seq<char>>,
    pub sudo: bool,
}

impl View for Job {
    type V = JobView;

    closed spec fn view(&self) -> JobView {
        JobView {
            command: self.command.deep_view(),
            need_stdout: self.need_stdout,
            on_success: self.on_success,
            allow_warnings: self.allow_warnings,
            allow_errors: self.allow_errors,
            executable: self.executable@,
            location: self.location@,
            file_path: opt_text(self.file_path),
            sudo: self.sudo,
        }
    }
}

/// A process to launch, in plain values.
#[derive(Debug, PartialEq, Eq)]
pub struct Invocation {
    /// The program to run.
    pub program: String,
    /// Its arguments, in order.
    pub args: Vec<String>,
    /// The directory it runs in.
    pub current_dir: String,
    /// The value of `PATH` in its environment, where it is overridden.
    pub path: Option<String>,
}

pub struct InvocationView {
    pub program: Seq<char>,
    pub args: Seq<Seq<char>>,
    pub current_dir: Seq<char>,
    pub path: Option<Seq<char>>,
}

impl View for Invocation {
    type V = InvocationView;

    open spec fn view(&self) -> InvocationView {
        InvocationView {
            program: self.program@,
            args: self.args.deep_view(),
            current_dir: self.current_dir@,
            path: opt_text(self.path),
        }
    }
}

/// A file to write before a job is launched.
#[derive(Debug, PartialEq, Eq)]
pub struct FileRequest {
    /// The directory to create if it is absent.
    pub directory: String,
    /// The file to write.
    pub path: String,
    /// What to write into it.
    pub content: String,
}

pub struct FileRequestView {
    pub directory: Seq<char>,
    pub path: Seq<char>,
    pub content: Seq<char>,
}

impl View for FileRequest {
    type V = FileRequestView;

    open spec fn view(&self) -> FileRequestView {
        FileRequestView { directory: self.directory@, path: self.path@, content: self.content@ }
    }
}

/// The job that a fragment gives in a workspace: none without a code
/// chunk.
pub open spec fn job_of(location: JobLocationView, item: ExecutableView) -> Option<JobView> {
    match item.code_chunk {
        Some(chunk) => Some(
            JobView {
                command: seq![
                    match chunk.attributes.cmd {
                        Some(cmd) => cmd,
                        None => Seq::empty(),
                    },
                ],
                need_stdout: chunk.attributes.stdout,
                on_success: None,
                allow_warnings: chunk.attributes.allow_warnings,
                allow_errors: chunk.attributes.allow_errors,
                executable: item,
                location,
                file_path: None,
                sudo: chunk.attributes.with_sudo,
            },
        ),
        None => None,
    }
}

/// The arguments that the attributes of a job give.
pub open spec fn attribute_args(job: JobView) -> Seq<Seq<char>> {
    match job.executable.code_chunk {
        Some(chunk) => match chunk.attributes.args {
            Some(args) => args,
            None => Seq::empty(),
        },
        None => Seq::empty(),
    }
}

/// The `PATH` that the attributes of a job give.
pub open spec fn attribute_path(job: JobView) -> Option<Seq<char>> {
    match job.executable.code_chunk {
        Some(chunk) => chunk.attributes.path,
        None => None,
    }
}

/// The process that a job launches, before the generated file is added:
/// the executable token, behind `sudo` where the job asks for it, then
/// the arguments of the attributes; in the workspace root.
pub open spec fn invocation_of(job: JobView) -> InvocationView {
    InvocationView {
        program: if job.sudo {
            SUDO@
        } else {
            job.command[0]
        },
        args: if job.sudo {
            seq![job.command[0]] + attribute_args(job)
        } else {
            attribute_args(job)
        },
        current_dir: job.location.workspace_root,
        path: attribute_path(job),
    }
}

/// The name of the generated file where the attributes give one.
pub open spec fn given_name(job: JobView) -> Option<Seq<char>> {
    match job.executable.code_chunk {
        Some(chunk) => chunk.attributes.id,
        None => None,
    }
}

/// The file that a job writes under the name `name`.
pub open spec fn file_request_of(job: JobView, name: Seq<char>) -> FileRequestView {
    let directory = joined(job.location.workspace_root, BUILD_DIR@);
    FileRequestView { directory, path: joined(directory, name), content: job.executable.code }
}

/// The words that describe a job: its program and arguments, each
/// followed by a space.
pub open spec fn spaced(words: Seq<Seq<char>>) -> Seq<char>
    decreases words.len(),
{
    if words.len() == 0 {
        Seq::empty()
    } else {
        spaced(words.drop_last()) + words.last() + " "@
    }
}

/// The words that describe a job.
pub open spec fn description_of(job: JobView) -> Seq<char> {
    spaced(seq![invocation_of(job).program] + invocation_of(job).args)
}

impl Job {
    /// The job of a fragment in a workspace. A fragment without a code
    /// chunk gives none.
    pub fn new(location: &JobLocation, item: &Executable) -> (res: Option<Job>)
        ensures
            match res {
                Some(job) => Some(job@) == job_of(location@, item@),
                None => job_of(location@, item@) is None,
            },
    {
        match &item.code_chunk {
            Some(c) => {
                let cmd: String = match &c.attributes.cmd {
                    Some(cmd) => cmd.clone(),
                    None => String::new(),
                };
                let mut command: Vec<String> = Vec::new();
                command.push(cmd);
                let job = Job {
                    command,
                    need_stdout: c.attributes.stdout,
                    on_success: None,
                    allow_warnings: c.attributes.allow_warnings,
                    allow_errors: c.attributes.allow_errors,
                    executable: item.clone(),
                    location: location.clone(),
                    file_path: None,
                    sudo: c.attributes.with_sudo,
                };
                assert(job@.command =~= job_of(location@, item@)->Some_0.command);
                Some(job)
            },
            None => None,
        }
    }

    /// The tokens of the command.
    pub fn command(&self) -> (res: &Vec<String>)
        ensures
            res.deep_view() == self@.command,
    {
        &self.command
    }

    /// Whether errors count as a success.
    pub fn allow_errors(&self) -> (res: bool)
        ensures
            res == self@.allow_errors,
    {
        self.allow_errors
    }

    /// The fragment that the job runs.
    pub fn executable(&self) -> (res: &Executable)
        ensures
            res@ == self@.executable,
    {
        &self.executable
    }

    /// Where the job runs.
    pub fn location(&self) -> (res: &JobLocation)
        ensures
            res@ == self@.location,
    {
        &self.location
    }

    /// Whether the job runs behind `sudo`.
    pub fn sudo(&self) -> (res: bool)
        ensures
            res == self@.sudo,
    {
        self.sudo
    }

    /// The generated file, once it is written.
    pub fn file_path(&self) -> (res: Option<String>)
        ensures
            opt_text(res) == self@.file_path,
    {
        clone_opt_string(&self.file_path)
    }

    /// The action to run after a success.
    pub fn on_success(&self) -> (res: &Option<Action>)
        ensures
            *res == self@.on_success,
    {
        &self.on_success
    }

    /// Whether warnings alone count as a success.
    pub fn allow_warnings(&self) -> (res: bool)
        ensures
            res == self@.allow_warnings,
    {
        self.allow_warnings
    }

    /// Whether stdout is captured.
    pub fn need_stdout(&self) -> (res: bool)
        ensures
            res == self@.need_stdout,
    {
        self.need_stdout
    }

    /// The process to launch, before the generated file is added to its
    /// arguments.
    pub fn get_command(&self) -> (res: Invocation)
        requires
            self@.command.len() > 0,
        ensures
            res@ == invocation_of(self@),
    {
        let mut args: Vec<String> = Vec::new();
        let program: String = if self.sudo {
            args.push(self.command[0].clone());
            SUDO.to_owned()
        } else {
            self.command[0].clone()
        };
        let ghost head = args.deep_view();
        assert(head =~= if self.sudo {
            seq![self@.command[0]]
        } else {
            Seq::empty()
        });
        let mut path: Option<String> = None;
        match &self.executable.code_chunk {
            Some(c) => {
                path = clone_opt_string(&c.attributes.path);
                match &c.attributes.args {
                    Some(given) => {
                        let mut i: usize = 0;
                        while i < given.len()
                            invariant
                                i <= given.len(),
                                args.deep_view() == head + given.deep_view().subrange(0, i as int),
                            decreases given.len() - i,
                        {
                            let ghost before = args.deep_view();
                            args.push(given[i].clone());
                            assert(args.deep_view() =~= before + seq![given@[i as int]@]);
                            assert(given.deep_view().subrange(0, i + 1) =~= given.deep_view().subrange(
                                0,
                                i as int,
                            ) + seq![given@[i as int]@]);
                            i += 1;
                        }
                        assert(given.deep_view().subrange(0, given.len() as int)
                            =~= given.deep_view());
                    },
                    None => {
                        assert(args.deep_view() =~= head + Seq::<Seq<char>>::empty());
                    },
                }
            },
            None => {
                assert(args.deep_view() =~= head + Seq::<Seq<char>>::empty());
            },
        }
        assert(args.deep_view() =~= invocation_of(self@).args);
        Invocation { program, args, current_dir: self.location.workspace_root.clone(), path }
    }

    /// The file to write before the launch, under the name `name`.
    pub fn file_request(&self, name: &str) -> (res: FileRequest)
        ensures
            res@ == file_request_of(self@, name@),
    {
        let directory = join(self.location.workspace_root.as_str(), BUILD_DIR);
        let path = join(directory.as_str(), name);
        FileRequest { directory, path, content: self.executable.code.clone() }
    }

    /// The name of the generated file: the id of the attributes, or a
    /// fresh unique token where they give none.
    pub fn file_name(&self) -> (res: String)
        ensures
            given_name(self@) matches Some(id) ==> res@ == id,
    {
        match &self.executable.code_chunk {
            Some(c) => match &c.attributes.id {
                Some(id) => id.clone(),
                None => fresh_id(),
            },
            None => fresh_id(),
        }
    }

    /// The name of the generated file: the id of the attributes, or
    /// `fallback` where they give none.
    pub fn file_name_or(&self, fallback: &str) -> (res: String)
        ensures
            res@ == match given_name(self@) {
                Some(id) => id,
                None => fallback@,
            },
    {
        match &self.executable.code_chunk {
            Some(c) => match &c.attributes.id {
                Some(id) => id.clone(),
                None => fallback.to_owned(),
            },
            None => fallback.to_owned(),
        }
    }

    /// Records that the generated file was written at `path`.
    pub fn file_written(&mut self, path: String)
        ensures
            final(self)@ == (JobView { file_path: Some(path@), ..old(self)@ }),
    {
        self.file_path = Some(path);
    }

    /// The words that describe the job: its program and its arguments.
    pub fn description(&self) -> (res: String)
        requires
            self@.command.len() > 0,
        ensures
            res@ == description_of(self@),
    {
        let invocation = self.get_command();
        let mut out: String = String::new();
        out = out.concat(invocation.program.as_str()).concat(" ");
        let ghost words = seq![invocation@.program] + invocation@.args;
        assert(words.subrange(0, 1) =~= seq![invocation@.program]);
        assert(spaced(words.subrange(0, 1)) == invocation@.program + " "@) by {
            assert(words.subrange(0, 1).drop_last() =~= Seq::<Seq<char>>::empty());
            assert(spaced(Seq::<Seq<char>>::empty()) =~= Seq::<char>::empty());
            assert(Seq::<char>::empty() + invocation@.program =~= invocation@.program);
        }
        let mut i: usize = 0;
        while i < invocation.args.len()
            invariant
                i <= invocation.args.len(),
                words == seq![invocation@.program] + invocation@.args,
                out@ == spaced(words.subrange(0, i + 1)),
            decreases invocation.args.len() - i,
        {
            out = out.concat(invocation.args[i].as_str()).concat(" ");
            proof {
                let next = words.subrange(0, i + 2);
                assert(next.drop_last() =~= words.subrange(0, i + 1));
                assert(next.last() == invocation.args@[i as int]@);
            }
            i += 1;
        }
        assert(words.subrange(0, words.len() as int) =~= words);
        out
    }
}

impl Clone for Job {
    fn clone(&self) -> (res: Job)
        ensures
            res@ == self@,
    {
        Job {
            command: clone_strings(&self.command),
            need_stdout: self.need_stdout,
            on_success: self.on_success,
            allow_warnings: self.allow_warnings,
            allow_errors: self.allow_errors,
            executable: self.executable.clone(),
            location: self.location.clone(),
            file_path: clone_opt_string(&self.file_path),
            sudo: self.sudo,
        }
    }
}

} // verus!
