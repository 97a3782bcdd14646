//! The fixed skeleton of a fresh bare repository: which directories to
//! create and which default files to write under the repository path.

use vstd::prelude::*;
use vstd::string::*;

verus! {

/// One file the initializer writes: its path and its full content.
pub struct FileInit {
    pub path: String,
    pub content: String,
}

/// The creation plan for a fresh repository: directories to create in
/// order, each tolerated as already existing, then files to write whole.
pub struct InitPlan {
    pub dirs: Vec<String>,
    pub files: Vec<FileInit>,
}

/// The default HEAD content: the repository starts on the master branch.
pub open spec fn head_content() -> Seq<char> {
    "ref: refs/heads/master\n"@
}

/// The default repository config content.
pub open spec fn config_content() -> Seq<char> {
    "\n[core]\n\trepositoryformatversion = 0\n\tfilemode = true\n\tbare = true\n\tlogallrefupdates = true\n\tignorecase = true\n\tprecomposeunicode = true\n"@
}

/// The plan a repository initialization at `root` must come out to: the
/// root itself, the `info`, `objects`, `refs` and `refs/heads`
/// subdirectories, and the default `HEAD` and `config` files.
pub open spec fn init_plan_matches(p: InitPlan, root: Seq<char>) -> bool {
    &&& p.dirs@.len() == 5
    &&& p.dirs@[0]@ == root
    &&& p.dirs@[1]@ == root + "/info"@
    &&& p.dirs@[2]@ == root + "/objects"@
    &&& p.dirs@[3]@ == root + "/refs"@
    &&& p.dirs@[4]@ == root + "/refs/heads"@
    &&& p.files@.len() == 2
    &&& p.files@[0].path@ == root + "/HEAD"@
    &&& p.files@[0].content@ == head_content()
    &&& p.files@[1].path@ == root + "/config"@
    &&& p.files@[1].content@ == config_content()
}

/// Initialize a repository at `path`: the full creation plan for the
/// minimal skeleton, for the caller to carry out in order.
pub fn init_repo(path: &str) -> (r: InitPlan)
    ensures
        init_plan_matches(r, path@),
{
    let mut dirs: Vec<String> = Vec::new();
    dirs.push(String::from_str(path));
    dirs.push(String::from_str(path).concat("/info"));
    dirs.push(String::from_str(path).concat("/objects"));
    dirs.push(String::from_str(path).concat("/refs"));
    dirs.push(String::from_str(path).concat("/refs/heads"));
    let mut files: Vec<FileInit> = Vec::new();
    files.push(
        FileInit {
            path: String::from_str(path).concat("/HEAD"),
            content: String::from_str("ref: refs/heads/master\n"),
        },
    );
    files.push(
        FileInit {
            path: String::from_str(path).concat("/config"),
            content: String::from_str(
                "\n[core]\n\trepositoryformatversion = 0\n\tfilemode = true\n\tbare = true\n\tlogallrefupdates = true\n\tignorecase = true\n\tprecomposeunicode = true\n",
            ),
        },
    );
    InitPlan { dirs, files }
}

} // verus!
