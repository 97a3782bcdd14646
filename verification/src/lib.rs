//! Storage substrate of a persistent, Git-format-compatible object store.
//!
//! Content is serialized into the tagged loose-object encoding
//! `"<type> <decimal-length>\0<payload>"`, addressed by the SHA-1 digest of
//! that encoding, compressed with zlib, and placed at a path derived from the
//! address (`objects/<first 2 hex chars>/<remaining 38 hex chars>`).
//! A companion lock-file primitive serializes mutating operations across
//! processes through atomic create-if-absent semantics.
//!
//! This crate computes addresses, encodings, compressed artifacts and write
//! plans; the caller performs the filesystem operations the plans describe.

use vstd::prelude::*;
use vstd::string::*;

pub mod blob;
pub mod initialize;
pub mod mutex;
pub mod object;

use crate::initialize::{init_plan_matches, InitPlan};
use crate::object::{plan_matches, Object, WritePlan};

verus! {

/// Errors surfaced by the store and by the lock primitive.
#[derive(Clone, Copy, Debug, PartialEq, Eq, Structural)]
pub enum StoreError {
    /// A caller-supplied value broke the protocol, for instance a relative
    /// lock path; detected before any side effect.
    InvalidInput,
    /// A failure of an underlying byte sink, propagated to the caller.
    Io,
}

/// Engine which represents the state of the application and which
/// encapsulates the repository: a bare repository located at `repo_path`,
/// whose content-addressable store lives under `objects_dir`.
pub struct Engine {
    repo_path: String,
    objects_dir: String,
}

impl Engine {
    /// The repository path this engine was constructed with.
    pub closed spec fn repo_path_spec(&self) -> Seq<char> {
        self.repo_path@
    }

    /// The object root: the repository path extended with `/objects`.
    pub closed spec fn objects_dir_spec(&self) -> Seq<char> {
        self.objects_dir@
    }

    /// Create a new Engine with a repository located at `path`.
    ///
    /// In this context, "repository" means a bare repository, not a working
    /// tree. A caller with a path relative to its working directory resolves
    /// it before constructing the engine.
    pub fn new(path: String) -> (r: Engine)
        ensures
            r.repo_path_spec() == path@,
            r.objects_dir_spec() == path@ + "/objects"@,
    {
        let objects_dir = path.clone().concat("/objects");
        Engine { repo_path: path, objects_dir }
    }

    /// Initialize the repository: the creation plan for the fixed skeleton
    /// of directories and default files, for the caller to carry out.
    pub fn init(&self) -> (r: InitPlan)
        ensures
            init_plan_matches(r, self.repo_path_spec()),
    {
        initialize::init_repo(self.repo_path.as_str())
    }

    /// Write the `Object` to the repository's content-addressable store:
    /// the derived write plan, whose address and paths are pinned down by
    /// the object's canonical serialization alone, and whose compressed
    /// bytes by the chunk sequence the object emits. The only failure is
    /// the object's own serialization error, propagated unchanged; for an
    /// object that surfaces none (a blob), the store is total.
    pub fn store<O: Object>(&mut self, obj: &mut O) -> (r: Result<WritePlan, StoreError>)
        ensures
            *final(self) == *old(self),
            r matches Ok(plan) ==> {
                &&& plan_matches(
                    plan,
                    old(obj).serial(),
                    old(obj).emit_chunks(),
                    old(self).objects_dir_spec(),
                )
                &&& final(obj).serial() == old(obj).serial()
                &&& final(obj).emit_chunks() == old(obj).emit_chunks()
            },
            r matches Err(e) ==> old(obj).emit_error(e),
    {
        obj.put(self.objects_dir.as_str())
    }
}

} // verus!
