//! The System capability: every operating-system primitive the sandbox
//! lifecycle needs, behind one injected trait, so the lifecycle logic can be
//! exercised with a deterministic substitute collaborator.
//!
//! The outside world is nondeterministic, so the trait promises nothing of
//! its results; the lifecycle functions state what holds whatever comes
//! back, and the pure functions that consume the results carry the exact
//! contracts.

use vstd::prelude::*;

use crate::config::CgroupConfig;
use crate::config::ProgramLimits;
use crate::execution_result::RawTermination;
use crate::execution_result::RunFailure;
use crate::mount::Mount;
use crate::variable::Variable;

verus! {

/// What a path currently is on the host filesystem.
#[derive(Debug, Clone, Copy, PartialEq, Eq, Structural)]
pub enum PathInfo {
    /// Nothing exists at the path.
    Missing,
    /// A directory, with its permission bits.
    Directory { mode: u32 },
    /// Something else (a regular file, a symlink, a device).
    Other,
}

/// Everything one program run needs, computed and validated by the sandbox
/// before any process is spawned.
#[derive(Debug)]
pub struct ProcessPlan {
    /// The sandbox id the run belongs to.
    pub id: u32,
    /// The program to run.
    pub program: String,
    /// Arguments to pass to the program.
    pub arguments: Option<Vec<String>>,
    /// The limits to apply before the program starts.
    pub limits: ProgramLimits,
    /// The user id the program runs as.
    pub uid: u32,
    /// The group id the program runs as.
    pub gid: u32,
    /// The resolved mount plan in effect for this run.
    pub mounts: Vec<Mount>,
    /// Redirect standard input from this file.
    pub stdin: Option<String>,
    /// Redirect standard output to this file.
    pub stdout: Option<String>,
    /// Redirect standard error to this file.
    pub stderr: Option<String>,
    /// Redirect standard error to standard output, after `stdout` is
    /// applied.
    pub stderr_to_stdout: bool,
    /// Inherit all environment variables from the parent.
    pub inherit_env: bool,
    /// Let file descriptors beyond 0, 1 and 2 survive.
    pub inherit_fds: bool,
    /// Keep the child in the parent's network namespace.
    pub share_net: bool,
    /// Print no status messages except fatal errors.
    pub silent: bool,
    /// Keep special files created inside the sandbox.
    pub special_files: bool,
    /// Handle interactive programs communicating over a tty.
    pub tty_hack: bool,
    /// Environment-variable rules.
    pub variables: Vec<Variable>,
    /// Working directory, relative to the sandbox root.
    pub working_directory: Option<String>,
    /// The `box` working directory of the sandbox on the host.
    pub box_directory: String,
    /// Whether a control-group slice exists for this sandbox and the run
    /// must be accounted to it.
    pub use_cgroup: bool,
}

/// The operating-system primitives the sandbox lifecycle calls.
///
/// One production implementation talks to the real host; tests supply a
/// deterministic substitute.  Implementations must uphold what each method's
/// documentation demands; nothing else is assumed of them.
pub trait System {
    /// The real user id of the calling process.
    fn getuid(&self) -> u32;

    /// The real group id of the calling process.
    fn getgid(&self) -> u32;

    /// The effective user id of the calling process.
    fn geteuid(&self) -> u32;

    /// The effective group id of the calling process.
    fn getegid(&self) -> u32;

    /// Switches the effective group id; on failure returns the OS error
    /// text.
    fn setegid(&self, gid: u32) -> Result<(), String>;

    /// Sets the process file-creation mask and returns the previous mask.
    fn umask(&self, mask: u32) -> u32;

    /// Changes ownership of `path` to `uid` and `gid`.
    fn chown(&self, path: &str, uid: u32, gid: u32) -> Result<(), String>;

    /// Creates `path` as a directory with permission `mode`, creating
    /// missing ancestors, succeeding if it already exists.
    fn create_directory_with_mode(&self, path: &str, mode: u32) -> Result<(), String>;

    /// Removes whatever is at `path`, then creates it fresh as a directory
    /// with permission `mode`.
    fn recreate_directory_with_mode(&self, path: &str, mode: u32) -> Result<(), String>;

    /// Removes the directory tree rooted at `path`.
    fn remove_directory_tree(&self, path: &str) -> Result<(), String>;

    /// Reports what `path` currently is.
    fn path_info(&self, path: &str) -> Result<PathInfo, String>;

    /// Applies one resolved mount inside the sandbox directory.
    /// Implementations must never create directories inside an
    /// already-bound target: a mount whose point is missing fails instead.
    fn apply_mount(&self, sandbox_directory: &str, mount: &Mount) -> Result<(), String>;

    /// Creates the control-group slice for sandbox `id` as `config`
    /// describes it.
    fn create_cgroup(&self, id: u32, config: &CgroupConfig) -> Result<(), String>;

    /// Releases the control-group slice of sandbox `id`, under the same
    /// root `config` names for its creation.
    fn release_cgroup(&self, id: u32, config: &CgroupConfig) -> Result<(), String>;

    /// Spawns the program `plan` describes, applying every resource limit
    /// and redirection before the program starts, inside the confined
    /// mount view, under `plan.uid` and `plan.gid`; blocks monitoring the
    /// child, deciding forced termination with
    /// [`crate::execution_result::monitor_poll`]; reports how the child
    /// stopped together with its resource accounting.  An error is returned
    /// only for failures after the point of no return, and carries the
    /// accounting gathered up to the failure so that it is not lost.
    fn run_program(&self, plan: &ProcessPlan) -> Result<RawTermination, RunFailure>;
}

} // verus!
