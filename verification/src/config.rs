//! The validated, immutable description of everything one sandbox
//! invocation needs, grouped by concern: security, I/O, filesystem,
//! behavior, program limits and control group.

use vstd::prelude::*;

use crate::error::Error;
use crate::mount::Mount;
use crate::text::str_eq;

verus! {

/// Where the control-group slice is rooted: a literal path in the cgroup
/// filesystem, or a path read at runtime from the named file.
#[derive(Debug, PartialEq)]
pub enum CgroupRoot {
    /// Read the real root path from this file.
    Automatic(String),
    /// Use this literal path.
    Manual(String),
}

/// Whether a path string carries the `auto:` indirection prefix.
pub open spec fn spec_has_auto_prefix(s: Seq<char>) -> bool {
    s.len() >= 5 && s.subrange(0, 5) == "auto:"@
}

impl CgroupRoot {
    /// Reads a root from its path syntax: `auto:<file>` means "read the
    /// real path from `<file>`", anything else is a literal path.
    pub fn from_path(path: String) -> (r: Self)
        ensures
            spec_has_auto_prefix(path@) ==> (r matches CgroupRoot::Automatic(p) && p@ == path@.skip(
                5,
            )),
            !spec_has_auto_prefix(path@) ==> r == CgroupRoot::Manual(path),
    {
        let n = path.as_str().unicode_len();
        if n >= 5 {
            let prefix = path.as_str().substring_char(0, 5);
            if str_eq(prefix, "auto:") {
                let stripped = path.as_str().substring_char(5, n).to_owned();
                proof {
                    assert(stripped@ =~= path@.skip(5));
                }
                return CgroupRoot::Automatic(stripped);
            }
        }
        CgroupRoot::Manual(path)
    }

    /// Writes the root back in its path syntax.
    pub fn into_path(self) -> (r: String)
        ensures
            self matches CgroupRoot::Automatic(p) ==> r@ == "auto:"@ + p@,
            self matches CgroupRoot::Manual(p) ==> r == p,
    {
        match self {
            CgroupRoot::Automatic(p) => {
                let mut m = "auto:".to_owned();
                m.append(p.as_str());
                m
            },
            CgroupRoot::Manual(p) => p,
        }
    }
}

impl Default for CgroupRoot {
    /// The conventional indirection file.
    fn default() -> (r: Self)
        ensures
            r matches CgroupRoot::Automatic(p) && p@ == "/run/isolate/cgroup"@,
    {
        CgroupRoot::Automatic("/run/isolate/cgroup".to_owned())
    }
}

/// Control-group configuration.
#[derive(Debug, PartialEq)]
pub struct CgroupConfig {
    /// CPU cores available to the group, in cpuset syntax (for example
    /// `"0-3,5,7"`).
    pub cpu_cores: Option<String>,
    /// Maximum memory allocation for the whole group, in kilobytes.
    pub memory_limit: Option<u32>,
    /// Memory nodes the group can use, in cpuset syntax.
    pub memory_nodes: Option<String>,
    /// Root directory under which the subgroup is created.
    pub root: CgroupRoot,
}

impl Default for CgroupConfig {
    /// One gigabyte of group memory under the conventional root; no core or
    /// node restriction.
    fn default() -> (r: Self)
        ensures
            r.cpu_cores is None,
            r.memory_limit == Option::Some(1048576u32),
            r.memory_nodes is None,
            r.root matches CgroupRoot::Automatic(p) && p@ == "/run/isolate/cgroup"@,
    {
        CgroupConfig {
            cpu_cores: Option::None,
            memory_limit: Option::Some(1024 * 1024),
            memory_nodes: Option::None,
            root: CgroupRoot::default(),
        }
    }
}

/// Security concern: identity overrides, sandbox id, descriptor and network
/// sharing.
#[derive(Debug, PartialEq)]
pub struct SecurityConfig {
    /// Act on behalf of the specified group id (only if the invoking real
    /// uid is root).  Must be used together with `as_uid`.
    pub as_gid: Option<u32>,
    /// Act on behalf of the specified user id (only if the invoking real
    /// uid is root).  Must be used together with `as_gid`.
    pub as_uid: Option<u32>,
    /// Which sandbox slot to use; defaults to 0.
    pub sandbox_id: Option<u32>,
    /// Let file descriptors beyond 0, 1 and 2 survive into the sandbox.
    pub inherit_fds: bool,
    /// Keep the child process in the parent's network namespace.
    pub share_net: bool,
}

impl Default for SecurityConfig {
    fn default() -> (r: Self)
        ensures
            r.as_gid is None,
            r.as_uid is None,
            r.sandbox_id == Option::Some(0u32),
            !r.inherit_fds,
            !r.share_net,
    {
        SecurityConfig {
            as_gid: Option::None,
            as_uid: Option::None,
            sandbox_id: Option::Some(0),
            inherit_fds: false,
            share_net: false,
        }
    }
}

/// I/O concern: standard-stream redirections.
#[derive(Debug, PartialEq)]
pub struct IoConfig {
    /// Redirect standard input from this file inside the sandbox.
    pub stdin: Option<String>,
    /// Redirect standard output to this file inside the sandbox.
    pub stdout: Option<String>,
    /// Redirect standard error to this file inside the sandbox.  Mutually
    /// exclusive with `stderr_to_stdout`.
    pub stderr: Option<String>,
    /// Redirect standard error to standard output, after `stdout` is
    /// applied.  Mutually exclusive with an explicit `stderr` path.
    pub stderr_to_stdout: bool,
    /// Handle interactive programs communicating over a tty.
    pub tty_hack: bool,
}

impl Default for IoConfig {
    fn default() -> (r: Self)
        ensures
            r.stdin is None,
            r.stdout is None,
            r.stderr is None,
            !r.stderr_to_stdout,
            !r.tty_hack,
    {
        IoConfig {
            stdin: Option::None,
            stdout: Option::None,
            stderr: Option::None,
            stderr_to_stdout: false,
            tty_hack: false,
        }
    }
}

/// Filesystem concern: working directory and mount rules.
#[derive(Debug, PartialEq)]
pub struct FilesystemConfig {
    /// Change to this directory, relative to the sandbox root, before
    /// executing the program.
    pub working_directory: Option<String>,
    /// Do not declare the default mount set; only the user-declared mounts
    /// apply.
    pub skip_default_mounts: bool,
    /// Keep special files (other than regular files and directories)
    /// created inside the sandbox.
    pub preserve_special_files: bool,
    /// User-declared mount rules, appended after the default set.
    pub mounts: Vec<Mount>,
}

impl Default for FilesystemConfig {
    fn default() -> (r: Self)
        ensures
            r.working_directory is None,
            !r.skip_default_mounts,
            !r.preserve_special_files,
            r.mounts@.len() == 0,
    {
        FilesystemConfig {
            working_directory: Option::None,
            skip_default_mounts: false,
            preserve_special_files: false,
            mounts: Vec::new(),
        }
    }
}

/// Behavior concern: environment inheritance, verbosity and contention.
#[derive(Debug, PartialEq)]
pub struct BehaviorConfig {
    /// Inherit all environment variables from the parent.
    pub inherit_env: bool,
    /// Print no status messages except fatal errors.
    pub silent: bool,
    /// Report verbosely on what is going on.
    pub verbose: bool,
    /// Wait for a competing instance of the same sandbox id to finish
    /// instead of refusing to run.
    pub wait: bool,
}

impl Default for BehaviorConfig {
    fn default() -> (r: Self)
        ensures
            !r.inherit_env,
            !r.silent,
            !r.verbose,
            !r.wait,
    {
        BehaviorConfig { inherit_env: false, silent: false, verbose: false, wait: false }
    }
}

/// Program limits; `None` means unlimited.
#[derive(Debug, PartialEq)]
pub struct ProgramLimits {
    /// Address-space limit in kilobytes; allocations beyond it fail.
    pub memory_limit_kb: Option<u32>,
    /// CPU-time limit in milliseconds.
    pub time_limit_ms: Option<u64>,
    /// Wall-clock limit in milliseconds.
    pub wall_time_limit_ms: Option<u64>,
    /// Grace window in milliseconds before a program over its CPU-time
    /// limit is killed, so that real execution time can be reported.
    pub extra_time_ms: Option<u64>,
    /// Stack limit in kilobytes; exceeding it raises a segmentation fault.
    pub stack_limit_kb: Option<u32>,
    /// Open-file limit; descriptor-creating calls beyond it fail.
    pub open_files_limit: Option<u32>,
    /// Size limit in kilobytes of each file created or modified.
    pub file_size_limit_kb: Option<u32>,
    /// Disk quota in blocks.
    pub block_quota: Option<u32>,
    /// Disk quota in inodes.
    pub inode_quota: Option<u32>,
    /// Size limit of core files in kilobytes; zero produces none.
    pub core_size_limit_kb: Option<u32>,
    /// How many processes and/or threads the program may create.
    pub process_limit: Option<u32>,
}

impl Default for ProgramLimits {
    /// The documented defaults: 256 MB of address space, one second of CPU
    /// time, five seconds of wall time, half a second of grace, 32 MB of
    /// stack, 64 open files, 8 MB per file, no disk quotas, no core files,
    /// one process.
    fn default() -> (r: Self)
        ensures
            r.memory_limit_kb == Option::Some(256000u32),
            r.time_limit_ms == Option::Some(1000u64),
            r.wall_time_limit_ms == Option::Some(5000u64),
            r.extra_time_ms == Option::Some(500u64),
            r.stack_limit_kb == Option::Some(32000u32),
            r.open_files_limit == Option::Some(64u32),
            r.file_size_limit_kb == Option::Some(8192u32),
            r.block_quota is None,
            r.inode_quota is None,
            r.core_size_limit_kb == Option::Some(0u32),
            r.process_limit == Option::Some(1u32),
    {
        ProgramLimits {
            memory_limit_kb: Option::Some(256000),
            time_limit_ms: Option::Some(1000),
            wall_time_limit_ms: Option::Some(5000),
            extra_time_ms: Option::Some(500),
            stack_limit_kb: Option::Some(32000),
            open_files_limit: Option::Some(64),
            file_size_limit_kb: Option::Some(8192),
            block_quota: Option::None,
            inode_quota: Option::None,
            core_size_limit_kb: Option::Some(0),
            process_limit: Option::Some(1),
        }
    }
}

/// Everything a sandbox invocation needs, validated as a whole at sandbox
/// construction.
#[derive(Debug, PartialEq)]
pub struct Config {
    /// Security concern.
    pub security: SecurityConfig,
    /// I/O concern.
    pub io: IoConfig,
    /// Filesystem concern.
    pub filesystem: FilesystemConfig,
    /// Behavior concern.
    pub behavior: BehaviorConfig,
    /// Program limits.
    pub limits: ProgramLimits,
    /// Control-group configuration, when a slice is wanted.
    pub cgroup: Option<CgroupConfig>,
}

/// The sandbox id a configuration asks for; absence means slot 0.
pub open spec fn spec_sandbox_id(c: Config) -> u32 {
    if c.security.sandbox_id is Some {
        c.security.sandbox_id->0
    } else {
        0
    }
}

/// Whether exactly one of the two identity-override fields is set.
pub open spec fn spec_one_sided_override(c: Config) -> bool {
    (c.security.as_uid is Some) != (c.security.as_gid is Some)
}

impl Default for Config {
    fn default() -> (r: Self)
        ensures
            r.security.as_gid is None,
            r.security.as_uid is None,
            r.security.sandbox_id == Option::Some(0u32),
            !r.security.inherit_fds,
            !r.security.share_net,
            r.io.stdin is None,
            r.io.stdout is None,
            r.io.stderr is None,
            !r.io.stderr_to_stdout,
            !r.io.tty_hack,
            r.filesystem.working_directory is None,
            !r.filesystem.skip_default_mounts,
            !r.filesystem.preserve_special_files,
            r.filesystem.mounts@.len() == 0,
            !r.behavior.inherit_env,
            !r.behavior.silent,
            !r.behavior.verbose,
            !r.behavior.wait,
            r.limits.block_quota is None,
            r.limits.inode_quota is None,
            r.cgroup is None,
    {
        Config {
            security: SecurityConfig::default(),
            io: IoConfig::default(),
            filesystem: FilesystemConfig::default(),
            behavior: BehaviorConfig::default(),
            limits: ProgramLimits::default(),
            cgroup: Option::None,
        }
    }
}

impl Config {
    /// Validates the configuration as a whole: an explicit stderr path and
    /// `stderr_to_stdout` are mutually exclusive.
    pub fn validate(&self) -> (r: Result<(), Error>)
        ensures
            r is Ok <==> !(self.io.stderr_to_stdout && self.io.stderr is Some),
            r matches Err(e) ==> e matches Error::Config(m) && m@
                == "`stderr` and `stderr_to_stdout` are mutually exclusive"@,
    {
        if self.io.stderr_to_stdout && self.io.stderr.is_some() {
            return Result::Err(
                Error::Config("`stderr` and `stderr_to_stdout` are mutually exclusive".to_owned()),
            );
        }
        Result::Ok(())
    }
}

} // verus!
