//! Where the document and its workspace are.

use vstd::prelude::*;
use crate::cli::args::Args;
use crate::text::{clone_opt_string, opt_text};

verus! {

/// The workspace and the document of a run.
#[derive(Debug, PartialEq, Eq)]
pub struct JobLocation {
    /// The directory in which the jobs run.
    pub workspace_root: String,
    /// The document; none where no document was found.
    pub path_to_md: Option<String>,
}

pub struct JobLocationView {
    pub workspace_root: Seq<char>,
    pub path_to_md: Option<Seq<char>>,
}

impl View for JobLocation {
    type V = JobLocationView;

    open spec fn view(&self) -> JobLocationView {
        JobLocationView {
            workspace_root: self.workspace_root@,
            path_to_md: opt_text(self.path_to_md),
        }
    }
}

impl Clone for JobLocation {
    fn clone(&self) -> (res: JobLocation)
        ensures
            res@ == self@,
    {
        JobLocation {
            workspace_root: self.workspace_root.clone(),
            path_to_md: clone_opt_string(&self.path_to_md),
        }
    }
}

/// What the file system says of the path that was given, or of the
/// current directory where none was given.
#[derive(Debug, Clone, Copy, PartialEq, Eq, Structural)]
pub struct PathFacts {
    /// The path is a directory.
    pub is_dir: bool,
    /// The path is a file.
    pub is_file: bool,
    /// The path exists.
    pub exists: bool,
    /// The path exists when taken from the current directory.
    pub exists_from_current_dir: bool,
}

/// `name` inside the directory `dir`.
pub open spec fn joined(dir: Seq<char>, name: Seq<char>) -> Seq<char> {
    dir + "/"@ + name
}

/// The path that is looked at: the one given, else the current directory.
pub open spec fn given_path(path: Option<Seq<char>>, current_dir: Seq<char>) -> Seq<char> {
    match path {
        Some(p) => p,
        None => current_dir,
    }
}

/// Where the workspace and the document are: for a directory, the
/// document is `README.md` inside it; for a file, the workspace is the
/// current directory and the file is the document; anything else has no
/// document.
pub open spec fn located(path: Option<Seq<char>>, current_dir: Seq<char>, facts: PathFacts)
    -> JobLocationView {
    let given = given_path(path, current_dir);
    if facts.is_dir && facts.exists {
        JobLocationView { workspace_root: given, path_to_md: Some(joined(given, "README.md"@)) }
    } else if facts.is_file && facts.exists {
        JobLocationView { workspace_root: current_dir, path_to_md: Some(given) }
    } else if facts.is_file {
        JobLocationView {
            workspace_root: current_dir,
            path_to_md: if facts.exists_from_current_dir {
                Some(joined(current_dir, given))
            } else {
                None
            },
        }
    } else {
        JobLocationView { workspace_root: given, path_to_md: None }
    }
}

/// `name` inside the directory `dir`.
pub fn join(dir: &str, name: &str) -> (res: String)
    ensures
        res@ == joined(dir@, name@),
{
    dir.to_owned().concat("/").concat(name)
}

impl JobLocation {
    /// Resolves the workspace and the document from the path argument,
    /// the current directory and what the file system says of the path.
    pub fn new(args: &Args, current_dir: &str, facts: PathFacts) -> (res: JobLocation)
        ensures
            res@ == located(opt_text(args.path), current_dir@, facts),
    {
        let given: String = match &args.path {
            Some(p) => p.clone(),
            None => current_dir.to_owned(),
        };
        if facts.is_dir && facts.exists {
            let document = join(given.as_str(), "README.md");
            JobLocation { workspace_root: given, path_to_md: Some(document) }
        } else if facts.is_file && facts.exists {
            JobLocation { workspace_root: current_dir.to_owned(), path_to_md: Some(given) }
        } else if facts.is_file {
            let document = if facts.exists_from_current_dir {
                Some(join(current_dir, given.as_str()))
            } else {
                None
            };
            JobLocation { workspace_root: current_dir.to_owned(), path_to_md: document }
        } else {
            JobLocation { workspace_root: given, path_to_md: None }
        }
    }
}

} // verus!
