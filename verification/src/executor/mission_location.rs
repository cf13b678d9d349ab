//! Where a mission takes place.

use vstd::prelude::*;
use crate::cli::args::Args;
use crate::executor::job_location::{given_path, join, joined};
use crate::text::{chars_of, opt_text, scan_back, span_start, substring, Class};

verus! {

/// The workspace and the document of a mission.
#[derive(Debug, PartialEq, Eq)]
pub struct MissionLocation {
    pub workspace_root: String,
    pub path_to_md: Option<String>,
}

pub struct MissionLocationView {
    pub workspace_root: Seq<char>,
    pub path_to_md: Option<Seq<char>>,
}

impl View for MissionLocation {
    type V = MissionLocationView;

    open spec fn view(&self) -> MissionLocationView {
        MissionLocationView {
            workspace_root: self.workspace_root@,
            path_to_md: opt_text(self.path_to_md),
        }
    }
}

/// A path without its last component, read with `/` between the
/// components: slashes at the end do not count; a path of one component
/// gives the empty path, or the root where it starts there; the empty
/// path and the root stay as they are.
pub open spec fn parent_of(path: Seq<char>) -> Seq<char> {
    let end = span_start(path, path.len() as int, Class::Only('/'));
    let start = span_start(path, end, Class::Except('/'));
    let before = span_start(path, start, Class::Only('/'));
    if end == 0 {
        path
    } else if before == 0 {
        path.subrange(0, start)
    } else {
        path.subrange(0, before)
    }
}

/// Where a mission takes place: in the directory that was given, with
/// its `README.md` as the document where that is a file; for a path that
/// is no directory, in the directory above it, without a document.
pub open spec fn mission_located(
    path: Option<Seq<char>>,
    current_dir: Seq<char>,
    is_dir: bool,
    readme_is_file: bool,
) -> MissionLocationView {
    let given = given_path(path, current_dir);
    if is_dir {
        MissionLocationView {
            workspace_root: given,
            path_to_md: if readme_is_file {
                Some(joined(given, "README.md"@))
            } else {
                None
            },
        }
    } else {
        MissionLocationView { workspace_root: parent_of(given), path_to_md: None }
    }
}

/// A path without its last component.
pub fn parent(path: &str) -> (res: String)
    ensures
        res@ == parent_of(path@),
{
    let chars = chars_of(path);
    let end = scan_back(&chars, chars.len(), Class::Only('/'));
    let start = scan_back(&chars, end, Class::Except('/'));
    let before = scan_back(&chars, start, Class::Only('/'));
    if end == 0 {
        let whole = path.to_owned();
        whole
    } else if before == 0 {
        substring(path, 0, start)
    } else {
        substring(path, 0, before)
    }
}

impl MissionLocation {
    /// Resolves the place of a mission from the path argument, the
    /// current directory and what the file system says: whether the path
    /// is a directory, and whether `README.md` in it is a file.
    pub fn new(args: &Args, current_dir: &str, is_dir: bool, readme_is_file: bool) -> (res:
        MissionLocation)
        ensures
            res@ == mission_located(opt_text(args.path), current_dir@, is_dir, readme_is_file),
    {
        let given: String = match &args.path {
            Some(p) => p.clone(),
            None => current_dir.to_owned(),
        };
        if is_dir {
            let document = if readme_is_file {
                Some(join(given.as_str(), "README.md"))
            } else {
                None
            };
            MissionLocation { workspace_root: given, path_to_md: document }
        } else {
            MissionLocation { workspace_root: parent(given.as_str()), path_to_md: None }
        }
    }
}

} // verus!
