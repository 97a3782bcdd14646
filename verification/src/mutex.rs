//! Atomic mutex over a lock file: mutual exclusion among cooperating
//! processes sharing one filesystem, using only atomic create-if-absent
//! semantics — no OS-level advisory locks.
//!
//! The token is the existence of an empty file at a caller-chosen absolute
//! path; the filesystem is the cross-process arbiter. This module holds the
//! protocol's state machine: the caller performs the single atomic
//! filesystem operation each transition calls for and passes its outcome
//! back in. If a holding process terminates without unlocking, the token
//! persists — there is no automatic expiry; this primitive does not detect
//! or break stale locks left by crashed holders.

use vstd::prelude::*;
use vstd::string::*;
use crate::StoreError;

verus! {

/// What the atomic create-if-absent at the lock path reported.
#[derive(Clone, Copy, Debug, PartialEq, Eq, Structural)]
pub enum CreateOutcome {
    /// The file did not exist and was created: the token is won.
    Created,
    /// The file already existed: the resource is locked elsewhere.
    AlreadyExists,
    /// Any other I/O failure (permissions, missing parent, disk full).
    Failed,
}

/// What the removal of the lock file reported.
#[derive(Clone, Copy, Debug, PartialEq, Eq, Structural)]
pub enum RemoveOutcome {
    /// The file was deleted: the token is given up.
    Removed,
    /// An I/O failure: the file may still exist.
    Failed,
}

/// What `lock` returns: a fresh acquisition is `Ok(true)`; "already held
/// by this instance" and "held elsewhere" are `Ok(false)`, expected
/// non-error outcomes; any other I/O failure is an error.
pub open spec fn lock_result_spec(attempt: Option<CreateOutcome>) -> Result<bool, StoreError> {
    match attempt {
        Option::None => Result::Ok(false),
        Option::Some(CreateOutcome::Created) => Result::Ok(true),
        Option::Some(CreateOutcome::AlreadyExists) => Result::Ok(false),
        Option::Some(CreateOutcome::Failed) => Result::Err(StoreError::Io),
    }
}

/// Whether the instance holds the token after `lock`: only a successful
/// creation changes anything.
pub open spec fn lock_held_spec(held: bool, attempt: Option<CreateOutcome>) -> bool {
    held || attempt == Option::Some(CreateOutcome::Created)
}

/// What `unlock` returns: a release is `Ok(true)`; "nothing to release" is
/// `Ok(false)`, an expected non-error outcome; an I/O failure propagates.
pub open spec fn unlock_result_spec(attempt: Option<RemoveOutcome>) -> Result<bool, StoreError> {
    match attempt {
        Option::None => Result::Ok(false),
        Option::Some(RemoveOutcome::Removed) => Result::Ok(true),
        Option::Some(RemoveOutcome::Failed) => Result::Err(StoreError::Io),
    }
}

/// Whether the instance holds the token after `unlock`: only a successful
/// removal changes anything; on failure the lock remains held.
pub open spec fn unlock_held_spec(held: bool, attempt: Option<RemoveOutcome>) -> bool {
    held && attempt != Option::Some(RemoveOutcome::Removed)
}

/// Mutual exclusion over a resource guarded by a fixed token. Each
/// transition names the single atomic filesystem operation the caller must
/// perform — exactly when the protocol calls for one — and takes its
/// outcome.
pub trait Lock {
    /// Whether this instance believes it holds the token.
    spec fn held(&self) -> bool;

    /// The path of the token file this instance guards.
    spec fn path_spec(&self) -> Seq<char>;

    /// Attempt to lock the resource. When this instance does not yet hold
    /// the token, the caller performs the atomic create-if-absent at the
    /// lock path — the exclusivity check and the creation as a single
    /// atomic filesystem operation, never an existence check followed by a
    /// create — and passes the outcome; when the lock is already held by
    /// this instance, no filesystem operation happens and `attempt` is
    /// `None`. Returns true on a fresh acquisition; false when the lock was
    /// already held by this instance or the resource is locked elsewhere;
    /// an error on any other I/O condition, with the state unchanged.
    fn lock(&mut self, attempt: Option<CreateOutcome>) -> (r: Result<bool, StoreError>)
        requires
            old(self).held() <==> attempt is None,
        ensures
            r == lock_result_spec(attempt),
            final(self).held() == lock_held_spec(old(self).held(), attempt),
            final(self).path_spec() == old(self).path_spec(),
    ;

    /// Attempt to unlock the resource. When this instance holds the token,
    /// the caller deletes the lock file and passes the outcome; when it
    /// does not, no filesystem operation happens and `attempt` is `None`.
    /// Returns true on a release; false when the resource was already
    /// unlocked; an error on an I/O failure, with the lock still held.
    fn unlock(&mut self, attempt: Option<RemoveOutcome>) -> (r: Result<bool, StoreError>)
        requires
            old(self).held() <==> attempt is Some,
        ensures
            r == unlock_result_spec(attempt),
            final(self).held() == unlock_held_spec(old(self).held(), attempt),
            final(self).path_spec() == old(self).path_spec(),
    ;

    /// Indicate whether the mutex is currently held by this instance.
    fn is_locked(&self) -> (r: bool)
        ensures
            r == self.held(),
    ;
}

/// A path is absolute when it starts at the filesystem root — the POSIX
/// form, a leading separator.
pub open spec fn is_absolute_path(s: Seq<char>) -> bool {
    s.len() > 0 && s[0] == '/'
}

/// Portable, multi-process-aware mutex over a lock file.
pub struct LockFile {
    path: String,
    locked: bool,
}

impl LockFile {
    /// `path` must be an absolute path: a relative path is ambiguous
    /// across working-directory changes in a long-lived process and is
    /// rejected here, before any filesystem operation, with an
    /// invalid-input error.
    pub fn new(path: String) -> (r: Result<LockFile, StoreError>)
        ensures
            r is Ok <==> is_absolute_path(path@),
            r matches Ok(l) ==> !l.held() && l.path_spec() == path@,
            r matches Err(e) ==> e == StoreError::InvalidInput,
    {
        if path.as_str().is_empty() {
            return Err(StoreError::InvalidInput);
        }
        let first = path.as_str().get_char(0);
        if first == '/' {
            Ok(LockFile { path, locked: false })
        } else {
            Err(StoreError::InvalidInput)
        }
    }

    /// The absolute path of the token file, for the caller's filesystem
    /// operations.
    pub fn path(&self) -> (r: &String)
        ensures
            r@ == self.path_spec(),
    {
        &self.path
    }
}

impl Lock for LockFile {
    closed spec fn held(&self) -> bool {
        self.locked
    }

    closed spec fn path_spec(&self) -> Seq<char> {
        self.path@
    }

    fn lock(&mut self, attempt: Option<CreateOutcome>) -> (r: Result<bool, StoreError>) {
        match attempt {
            None => Ok(false),
            Some(CreateOutcome::Created) => {
                self.locked = true;
                Ok(true)
            },
            Some(CreateOutcome::AlreadyExists) => Ok(false),
            Some(CreateOutcome::Failed) => Err(StoreError::Io),
        }
    }

    fn unlock(&mut self, attempt: Option<RemoveOutcome>) -> (r: Result<bool, StoreError>) {
        match attempt {
            None => Ok(false),
            Some(RemoveOutcome::Removed) => {
                self.locked = false;
                Ok(true)
            },
            Some(RemoveOutcome::Failed) => Err(StoreError::Io),
        }
    }

    fn is_locked(&self) -> (r: bool) {
        self.locked
    }
}

/// The outcome the filesystem's atomic create-if-absent reports, as a
/// function of whether the token file exists at that moment: it succeeds
/// exactly when the file is absent. (Unrelated I/O failures are left out
/// of this model; the transitions above handle every outcome.)
pub open spec fn create_if_absent(file_exists: bool) -> CreateOutcome {
    if file_exists {
        CreateOutcome::AlreadyExists
    } else {
        CreateOutcome::Created
    }
}

/// Cross-instance exclusion: for two instances constructed against the
/// same path, the filesystem arbitrates. While the holder's token file
/// exists, another unlocked instance's acquisition attempt reports "not
/// acquired" — not an error — and leaves that instance unlocked; once the
/// holder has released and the file is absent, the same attempt freshly
/// acquires.
pub proof fn lemma_cross_instance_exclusion(file_exists: bool)
    ensures
        file_exists ==> lock_result_spec(Some(create_if_absent(file_exists))) == Result::<
            bool,
            StoreError,
        >::Ok(false),
        file_exists ==> !lock_held_spec(false, Some(create_if_absent(file_exists))),
        !file_exists ==> lock_result_spec(Some(create_if_absent(file_exists))) == Result::<
            bool,
            StoreError,
        >::Ok(true),
        !file_exists ==> lock_held_spec(false, Some(create_if_absent(file_exists))),
{
}

} // verus!
