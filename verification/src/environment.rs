//! Host-wide policy: where sandboxes live and which identities they use.

use vstd::prelude::*;

verus! {

/// Host policy shared by every sandbox of one installation.
#[derive(Debug)]
pub struct Environment {
    /// First gid to use for sandboxes: sandbox `id` gets
    /// `first_sandbox_gid + id`.
    pub first_sandbox_gid: u32,
    /// First uid to use for sandboxes: sandbox `id` gets
    /// `first_sandbox_uid + id`.
    pub first_sandbox_uid: u32,
    /// Directory where lock files are created.
    pub lock_root: String,
    /// Number of sandbox instances supported; valid ids are
    /// `0..num_sandboxes`.
    pub num_sandboxes: u32,
    /// Only a root-invoked process may initialize sandboxes.
    pub restrict_initialization: bool,
    /// All sandboxes are created under this directory.  To avoid symlink
    /// attacks, this directory and all its ancestors must be writable only
    /// by their owner.
    pub sandbox_root: String,
}

impl Environment {
    /// A usable environment supports at least one sandbox and its derived
    /// uids and gids fit the id type.
    pub open spec fn wf(&self) -> bool {
        &&& self.num_sandboxes >= 1
        &&& self.first_sandbox_uid + self.num_sandboxes <= u32::MAX
        &&& self.first_sandbox_gid + self.num_sandboxes <= u32::MAX
    }
}

impl Default for Environment {
    /// The installation defaults: a thousand sandboxes under
    /// `/var/local/lib/isolate`, ids starting at 60000, anybody may
    /// initialize.
    fn default() -> (r: Self)
        ensures
            r.first_sandbox_gid == 60000,
            r.first_sandbox_uid == 60000,
            r.lock_root@ == "/run/isolate/locks"@,
            r.num_sandboxes == 1000,
            !r.restrict_initialization,
            r.sandbox_root@ == "/var/local/lib/isolate"@,
            r.wf(),
    {
        Environment {
            first_sandbox_gid: 60000,
            first_sandbox_uid: 60000,
            lock_root: "/run/isolate/locks".to_owned(),
            num_sandboxes: 1000,
            restrict_initialization: false,
            sandbox_root: "/var/local/lib/isolate".to_owned(),
        }
    }
}

} // verus!
