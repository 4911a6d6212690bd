//! One program invocation: what to run, under which limits, with which
//! mounts, redirections and environment rules.

use vstd::prelude::*;

use vstd::pervasive::unreached;

use crate::config::ProgramLimits;
use crate::mount::Mount;
use crate::mount::MountOptionsV;
use crate::mount::MountV;
use crate::mount::spec_default_options;
use crate::variable::Variable;

verus! {

/// The default mount set: a read-write bind of the working directory at
/// `box`; read-only binds of `bin`, `lib` and `usr`; a skip-if-missing
/// read-only bind of `lib64`; a device-enabled bind of `dev`; a synthetic
/// process-information mount at `proc`; an ephemeral read-write scratch
/// mount at `tmp`.
pub open spec fn spec_default_mounts() -> Seq<MountV> {
    seq![
        MountV {
            inside_path: "box"@,
            outside_path: Option::Some("./box"@),
            options: MountOptionsV { read_write: true, ..spec_default_options() },
        },
        MountV {
            inside_path: "bin"@,
            outside_path: Option::None,
            options: spec_default_options(),
        },
        MountV {
            inside_path: "dev"@,
            outside_path: Option::None,
            options: MountOptionsV { allow_devices: true, ..spec_default_options() },
        },
        MountV {
            inside_path: "lib"@,
            outside_path: Option::None,
            options: spec_default_options(),
        },
        MountV {
            inside_path: "lib64"@,
            outside_path: Option::None,
            options: MountOptionsV { optional: true, ..spec_default_options() },
        },
        MountV {
            inside_path: "proc"@,
            outside_path: Option::None,
            options: MountOptionsV {
                filesystem: Option::Some("proc"@),
                ..spec_default_options()
            },
        },
        MountV {
            inside_path: "tmp"@,
            outside_path: Option::None,
            options: MountOptionsV { read_write: true, temporary: true, ..spec_default_options() },
        },
        MountV {
            inside_path: "usr"@,
            outside_path: Option::None,
            options: spec_default_options(),
        },
    ]
}

/// One execution request.
///
/// Construct it with [`ExecutionContext::new`] or [`Default`] and assign the
/// fields to change; every field has a documented default.
#[derive(Debug)]
pub struct ExecutionContext {
    /// Arguments to pass to the program.  Default: none.
    pub arguments: Option<Vec<String>>,
    /// Per-invocation program limits.  Default: the documented
    /// `ProgramLimits` defaults.
    pub limits: ProgramLimits,
    /// Inherit all environment variables from the parent rather than only
    /// those requested by variable rules.  Default: off.
    pub inherit_env: bool,
    /// Let file descriptors beyond 0, 1 and 2 survive into the sandbox.
    /// Default: off.
    pub inherit_fds: bool,
    /// Which directories to mount for this program.  Default: the default
    /// mount set; resolved in declaration order when the program runs.
    pub mounts: Vec<Mount>,
    /// The program to run; the only required field.
    pub program: String,
    /// Keep the child process in the parent's network namespace.  Default:
    /// off (an empty namespace with only a loopback device).
    pub share_net: bool,
    /// Print no status messages except fatal errors.  Default: off.
    pub silent: bool,
    /// Keep special files created inside the sandbox.  Default: off (they
    /// are removed).
    pub special_files: bool,
    /// Redirect standard error to this file inside the sandbox.  Mutually
    /// exclusive with `stderr_to_stdout`.  Default: inherited.
    pub stderr: Option<String>,
    /// Redirect standard error to standard output, after `stdout` is
    /// applied.  Default: off.
    pub stderr_to_stdout: bool,
    /// Redirect standard input from this file inside the sandbox.
    /// Default: inherited.
    pub stdin: Option<String>,
    /// Redirect standard output to this file inside the sandbox.
    /// Default: inherited.
    pub stdout: Option<String>,
    /// Handle interactive programs communicating over a tty.  Default: off.
    pub tty_hack: bool,
    /// Environment variables to pass to the program.  Default: none.
    pub variables: Vec<Variable>,
    /// Change to this directory, relative to the sandbox root, before
    /// executing the program.  Default: the sandbox root itself.
    pub working_directory: Option<String>,
}

/// Every field of a freshly constructed context other than the program and
/// its arguments holds its documented default.
pub open spec fn spec_default_context_rest(c: ExecutionContext) -> bool {
    &&& c.limits.memory_limit_kb == Option::Some(256000u32)
    &&& c.limits.time_limit_ms == Option::Some(1000u64)
    &&& c.limits.wall_time_limit_ms == Option::Some(5000u64)
    &&& c.limits.extra_time_ms == Option::Some(500u64)
    &&& c.limits.stack_limit_kb == Option::Some(32000u32)
    &&& c.limits.open_files_limit == Option::Some(64u32)
    &&& c.limits.file_size_limit_kb == Option::Some(8192u32)
    &&& c.limits.block_quota is None
    &&& c.limits.inode_quota is None
    &&& c.limits.core_size_limit_kb == Option::Some(0u32)
    &&& c.limits.process_limit == Option::Some(1u32)
    &&& c.mounts.deep_view() == spec_default_mounts()
    &&& !c.inherit_env
    &&& !c.inherit_fds
    &&& !c.share_net
    &&& !c.silent
    &&& !c.special_files
    &&& c.stderr is None
    &&& !c.stderr_to_stdout
    &&& c.stdin is None
    &&& c.stdout is None
    &&& !c.tty_hack
    &&& c.variables@.len() == 0
    &&& c.working_directory is None
}

impl ExecutionContext {
    /// The default mount set, in declaration order.
    pub fn default_mounts() -> (r: Vec<Mount>)
        ensures
            r.deep_view() == spec_default_mounts(),
    {
        let mut v: Vec<Mount> = Vec::new();
        let m = match Mount::read_write("box", Option::Some("./box")) {
            Result::Ok(m) => m,
            Result::Err(_) => unreached(),
        };
        v.push(m);
        let m = match Mount::read_only("bin", Option::None) {
            Result::Ok(m) => m,
            Result::Err(_) => unreached(),
        };
        v.push(m);
        let m = match Mount::device("dev", Option::None) {
            Result::Ok(m) => m,
            Result::Err(_) => unreached(),
        };
        v.push(m);
        let m = match Mount::read_only("lib", Option::None) {
            Result::Ok(m) => m,
            Result::Err(_) => unreached(),
        };
        v.push(m);
        let m = match Mount::optional("lib64", Option::None) {
            Result::Ok(m) => m,
            Result::Err(_) => unreached(),
        };
        v.push(m);
        let m = match Mount::filesystem("proc", "proc") {
            Result::Ok(m) => m,
            Result::Err(_) => unreached(),
        };
        v.push(m);
        let m = match Mount::temporary("tmp") {
            Result::Ok(m) => m,
            Result::Err(_) => unreached(),
        };
        v.push(m);
        let m = match Mount::read_only("usr", Option::None) {
            Result::Ok(m) => m,
            Result::Err(_) => unreached(),
        };
        v.push(m);
        proof {
            assert(v.deep_view() =~= spec_default_mounts());
        }
        v
    }

    /// A context that runs `program` with `arguments` and every other field
    /// at its documented default.
    pub fn new(program: String, arguments: Option<Vec<String>>) -> (r: Self)
        ensures
            r.program == program,
            r.arguments == arguments,
            spec_default_context_rest(r),
    {
        let mut c = Self::default();
        c.program = program;
        c.arguments = arguments;
        c
    }
}

impl Default for ExecutionContext {
    /// An empty program name, no arguments, and every other field at its
    /// documented default.
    fn default() -> (r: Self)
        ensures
            r.program@ == Seq::<char>::empty(),
            r.arguments is None,
            spec_default_context_rest(r),
    {
        ExecutionContext {
            arguments: Option::None,
            limits: ProgramLimits::default(),
            inherit_env: false,
            inherit_fds: false,
            mounts: Self::default_mounts(),
            program: String::new(),
            share_net: false,
            silent: false,
            special_files: false,
            stderr: Option::None,
            stderr_to_stdout: false,
            stdin: Option::None,
            stdout: Option::None,
            tty_hack: false,
            variables: Vec::new(),
            working_directory: Option::None,
        }
    }
}

} // verus!
