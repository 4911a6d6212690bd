//! The sandbox lifecycle: construction with credential resolution, then
//! `initialize`, `execute` (repeatable) and `cleanup`.

use vstd::prelude::*;

use crate::config::CgroupConfig;
use crate::config::Config;
use crate::config::spec_one_sided_override;
use crate::config::spec_sandbox_id;
use crate::environment::Environment;
use crate::error::Error;
use crate::execution_context::ExecutionContext;
use crate::execution_context::spec_default_mounts;
use crate::execution_result::ExecutionResult;
use crate::execution_result::build_execution_result;
use crate::execution_result::internal_error_result;
use crate::mount::Mount;
use crate::mount::MountV;
use crate::mount::resolve_mounts;
use crate::mount::spec_resolve;
use crate::system::PathInfo;
use crate::system::ProcessPlan;
use crate::system::System;
use crate::text::lemma_parent_shorter;
use crate::text::parent_of;
use crate::text::spec_decimal;
use crate::text::u32_to_string;

verus! {

/// Decides which user/group pair the sandboxed process will run as.
///
/// With neither override set the invoking identity is kept; with both set
/// the overrides are taken verbatim, but only a root invoker may use them;
/// setting exactly one override is a configuration error.
pub fn resolve_credentials(
    as_uid: Option<u32>,
    as_gid: Option<u32>,
    real_uid: u32,
    real_gid: u32,
) -> (r: Result<(u32, u32), Error>)
    ensures
        as_uid is None && as_gid is None ==> r == Result::<(u32, u32), Error>::Ok(
            (real_uid, real_gid),
        ),
        (as_uid is Some) != (as_gid is Some) ==> (r matches Err(e) && e matches Error::Config(m)
            && m@ == "`as_uid` and `as_gid` must be used either both or none"@),
        as_uid is Some && as_gid is Some && real_uid != 0 ==> (r matches Err(e)
            && e matches Error::Permission(m) && m@
            == "you must be root to use `as_uid` or `as_gid`"@),
        as_uid is Some && as_gid is Some && real_uid == 0 ==> r == Result::<(u32, u32), Error>::Ok(
            (as_uid->0, as_gid->0),
        ),
{
    match (as_uid, as_gid) {
        (Option::None, Option::None) => Result::Ok((real_uid, real_gid)),
        (Option::Some(uid), Option::Some(gid)) => {
            if real_uid != 0 {
                Result::Err(
                    Error::Permission("you must be root to use `as_uid` or `as_gid`".to_owned()),
                )
            } else {
                Result::Ok((uid, gid))
            }
        },
        _ => Result::Err(
            Error::Config("`as_uid` and `as_gid` must be used either both or none".to_owned()),
        ),
    }
}

/// The message given for a sandbox id outside the valid range
/// `0..num_sandboxes`.
pub open spec fn spec_id_range_message(num_sandboxes: u32) -> Seq<char>
    recommends
        num_sandboxes >= 1,
{
    "sandbox id out of range (allowed: 0-"@ + spec_decimal((num_sandboxes - 1) as nat) + ")"@
}

/// Accepts exactly the ids below `num_sandboxes`; anything else is a
/// configuration error naming the valid range.
pub fn validate_sandbox_id(id: u32, num_sandboxes: u32) -> (r: Result<(), Error>)
    requires
        num_sandboxes >= 1,
    ensures
        r is Ok <==> id < num_sandboxes,
        r matches Err(e) ==> e matches Error::Config(m) && m@ == spec_id_range_message(
            num_sandboxes,
        ),
{
    if id < num_sandboxes {
        Result::Ok(())
    } else {
        let mut m = "sandbox id out of range (allowed: 0-".to_owned();
        m.append(u32_to_string(num_sandboxes - 1).as_str());
        m.append(")");
        proof {
            assert(m@ =~= spec_id_range_message(num_sandboxes));
        }
        Result::Err(Error::Config(m))
    }
}

/// The per-sandbox directory: `root/id`.
pub open spec fn spec_sandbox_directory(root: Seq<char>, id: u32) -> Seq<char> {
    root + seq!['/'] + spec_decimal(id as nat)
}

fn sandbox_directory_path(root: &str, id: u32) -> (r: String)
    ensures
        r@ == spec_sandbox_directory(root@, id),
{
    let mut s = root.to_owned();
    s.append("/");
    s.append(u32_to_string(id).as_str());
    proof {
        reveal_strlit("/");
        assert(s@ =~= spec_sandbox_directory(root@, id));
    }
    s
}

/// The host path a mount binds from: its outside-path, or `/` followed by
/// its inside-path when no outside-path is declared.
pub open spec fn spec_mount_source(m: MountV) -> Seq<char> {
    match m.outside_path {
        Option::Some(p) => p,
        Option::None => seq!['/'] + m.inside_path,
    }
}

fn mount_source(m: &Mount) -> (r: String)
    ensures
        r@ == spec_mount_source(m@),
{
    match &m.outside_path {
        Option::Some(p) => p.clone(),
        Option::None => {
            let mut s = "/".to_owned();
            s.append(m.inside_path.as_str());
            proof {
                reveal_strlit("/");
                assert(s@ =~= seq!['/'] + m@.inside_path);
            }
            s
        },
    }
}

/// The construction gate: only a process whose effective uid is root may
/// build a sandbox.
pub fn check_effective_root(effective_uid: u32) -> (r: Result<(), Error>)
    ensures
        r is Ok <==> effective_uid == 0,
        r matches Err(e) ==> e is NotRoot,
{
    if effective_uid == 0 {
        Result::Ok(())
    } else {
        Result::Err(Error::NotRoot)
    }
}

/// The error reported when the switch of the effective gid to root fails,
/// naming the underlying cause.
pub fn setegid_failure(cause: String) -> (e: Error)
    ensures
        e matches Error::Permission(m) && m@ == "cannot switch to root group: "@ + cause@,
{
    let mut m = "cannot switch to root group: ".to_owned();
    m.append(cause.as_str());
    Error::Permission(m)
}

/// The complaint raised for an unacceptable ancestor of the sandbox root.
pub open spec fn spec_ancestor_violation(path: Seq<char>, info: PathInfo) -> Seq<char> {
    match info {
        PathInfo::Directory { mode } => "`"@ + path + "` must be writable only by root"@,
        _ => "`"@ + path + "` must be a directory writable only by root"@,
    }
}

/// Decides whether one ancestor of the sandbox root is acceptable: it must
/// be a directory whose group- and other-write permission bits are clear.
/// Anything else fails with a `Permission` error naming the path, which
/// defends against symlink and permission races in a world-writable
/// hierarchy.
pub fn check_ancestor(path: &str, info: PathInfo) -> (r: Result<(), Error>)
    ensures
        r is Ok <==> (info matches PathInfo::Directory { mode } && mode & 0o022 == 0),
        r matches Err(e) ==> e matches Error::Permission(m) && m@ == spec_ancestor_violation(
            path@,
            info,
        ),
{
    match info {
        PathInfo::Directory { mode } => {
            if mode & 0o022 == 0 {
                Result::Ok(())
            } else {
                let mut m = "`".to_owned();
                m.append(path);
                m.append("` must be writable only by root");
                proof {
                    assert(m@ =~= spec_ancestor_violation(path@, info));
                }
                Result::Err(Error::Permission(m))
            }
        },
        _ => {
            let mut m = "`".to_owned();
            m.append(path);
            m.append("` must be a directory writable only by root");
            proof {
                assert(m@ =~= spec_ancestor_violation(path@, info));
            }
            Result::Err(Error::Permission(m))
        },
    }
}

/// Decides whether one mount of the plan is skipped: exactly the optional
/// mounts whose source is missing are skipped silently; every other mount
/// is applied.
pub fn skip_optional_mount(optional: bool, source_info: PathInfo) -> (r: bool)
    ensures
        r == (optional && source_info is Missing),
{
    optional && matches!(source_info, PathInfo::Missing)
}

/// The ordered mount declarations of a configuration: the default set,
/// unless explicitly skipped, followed by the user declarations.
pub open spec fn spec_declared_mounts(c: Config) -> Seq<MountV> {
    if c.filesystem.skip_default_mounts {
        c.filesystem.mounts.deep_view()
    } else {
        spec_default_mounts() + c.filesystem.mounts.deep_view()
    }
}

/// The identities of one sandbox.
#[derive(Debug)]
pub struct Credentials {
    /// The group id that owns the sandbox slot
    /// (`first_sandbox_gid + id`).
    pub gid: u32,
    /// The sandbox id, in `0..num_sandboxes`.
    pub id: u32,
    /// The group id the sandboxed process runs as: the invoking real gid,
    /// or the `as_gid` override.
    pub original_gid: u32,
    /// The user id the sandboxed process runs as: the invoking real uid,
    /// or the `as_uid` override.
    pub original_uid: u32,
    /// The user id that owns the sandbox slot
    /// (`first_sandbox_uid + id`).
    pub uid: u32,
}

/// One isolation slot: a directory, an identity and a mount plan, driven
/// through `initialize`, `execute` and `cleanup`.
#[derive(Debug)]
pub struct Sandbox {
    /// The control-group configuration, when a slice is wanted.
    pub cgroup: Option<CgroupConfig>,
    /// The resolved identities.
    pub credentials: Credentials,
    /// The per-sandbox directory (`sandbox_root/id`).
    pub directory: String,
    /// Whether `initialize` has completed and `cleanup` has not run.
    pub initialized: bool,
    /// Whether the invoking real (not effective) uid was root, recorded at
    /// construction for the initialization restriction.
    pub invoker_real_root: bool,
    /// Directory where lock files are created.
    pub lock_root: String,
    /// The resolved mount plan applied at initialization.
    pub mounts: Vec<Mount>,
    /// Whether only a root-invoked process may initialize this sandbox.
    pub restrict_initialization: bool,
    /// The directory under which every sandbox lives.
    pub sandbox_root: String,
    /// Report verbosely on what is going on.
    pub verbose: bool,
    /// Wait for a competing instance of the same id instead of refusing.
    pub wait: bool,
}

impl Sandbox {
    /// Builds a sandbox from a configuration and the host environment.
    ///
    /// Requires a root effective uid, switches the effective gid to root if
    /// needed, applies the restrictive file-creation mask, validates the
    /// configuration and the sandbox id, and resolves the identity the
    /// program will run as.  No error leaves a partial sandbox behind.
    pub fn new<S: System>(config: Config, environment: &Environment, system: &S) -> (r: Result<
        Sandbox,
        Error,
    >)
        requires
            environment.wf(),
        ensures
            r matches Ok(sb) ==> {
                &&& sb.credentials.id == spec_sandbox_id(config)
                &&& spec_sandbox_id(config) < environment.num_sandboxes
                &&& sb.credentials.uid == environment.first_sandbox_uid + spec_sandbox_id(config)
                &&& sb.credentials.gid == environment.first_sandbox_gid + spec_sandbox_id(config)
                &&& (config.security.as_uid is Some && config.security.as_gid is Some ==> {
                    &&& sb.credentials.original_uid == config.security.as_uid->0
                    &&& sb.credentials.original_gid == config.security.as_gid->0
                    &&& sb.invoker_real_root
                })
                &&& sb.directory@ == spec_sandbox_directory(
                    environment.sandbox_root@,
                    spec_sandbox_id(config),
                )
                &&& !sb.initialized
                &&& sb.restrict_initialization == environment.restrict_initialization
                &&& sb.sandbox_root@ == environment.sandbox_root@
                &&& sb.lock_root@ == environment.lock_root@
                &&& sb.verbose == config.behavior.verbose
                &&& sb.wait == config.behavior.wait
                &&& sb.cgroup == config.cgroup
                &&& sb.mounts.deep_view() == spec_resolve(spec_declared_mounts(config))
                &&& !spec_one_sided_override(config)
                &&& !(config.io.stderr_to_stdout && config.io.stderr is Some)
            },
            spec_sandbox_id(config) >= environment.num_sandboxes ==> r is Err,
            spec_one_sided_override(config) ==> r is Err,
            config.io.stderr_to_stdout && config.io.stderr is Some ==> r is Err,
    {
        match check_effective_root(system.geteuid()) {
            Result::Ok(()) => {},
            Result::Err(e) => {
                return Result::Err(e);
            },
        }
        if system.getegid() != 0 {
            match system.setegid(0) {
                Result::Ok(()) => {},
                Result::Err(cause) => {
                    return Result::Err(setegid_failure(cause));
                },
            }
        }
        // Files created from here on default to safe permissions: no group
        // or other write access.
        system.umask(0o022);
        match config.validate() {
            Result::Ok(()) => {},
            Result::Err(e) => {
                return Result::Err(e);
            },
        }
        let id = match config.security.sandbox_id {
            Option::Some(i) => i,
            Option::None => 0,
        };
        match validate_sandbox_id(id, environment.num_sandboxes) {
            Result::Ok(()) => {},
            Result::Err(e) => {
                return Result::Err(e);
            },
        }
        let real_uid = system.getuid();
        let real_gid = system.getgid();
        let invoker_real_root = real_uid == 0;
        let resolved = match resolve_credentials(
            config.security.as_uid,
            config.security.as_gid,
            real_uid,
            real_gid,
        ) {
            Result::Ok(pair) => pair,
            Result::Err(e) => {
                return Result::Err(e);
            },
        };
        let directory = sandbox_directory_path(environment.sandbox_root.as_str(), id);
        let ghost user_deep: Seq<MountV> = config.filesystem.mounts.deep_view();
        let mut declared: Vec<Mount>;
        if config.filesystem.skip_default_mounts {
            declared = config.filesystem.mounts;
        } else {
            declared = ExecutionContext::default_mounts();
            let mut user = config.filesystem.mounts;
            let ghost pre: Seq<Mount> = declared@;
            let ghost pre_user: Seq<Mount> = user@;
            declared.append(&mut user);
            proof {
                assert forall|i: int|
                    0 <= i < declared@.len() implies declared.deep_view()[i] == (
                spec_default_mounts() + user_deep)[i] by {
                    assert(declared.deep_view()[i] == declared@[i]@);
                    if i < pre.len() {
                        assert(declared@[i] == pre[i]);
                        assert(spec_default_mounts()[i] == pre[i]@);
                    } else {
                        assert(declared@[i] == pre_user[i - pre.len()]);
                        assert(user_deep[i - pre.len()] == pre_user[i - pre.len()]@);
                    }
                }
                assert(declared.deep_view() =~= spec_default_mounts() + user_deep);
            }
        }
        let mounts = resolve_mounts(declared);
        Result::Ok(
            Sandbox {
                cgroup: config.cgroup,
                credentials: Credentials {
                    gid: environment.first_sandbox_gid + id,
                    id,
                    original_gid: resolved.1,
                    original_uid: resolved.0,
                    uid: environment.first_sandbox_uid + id,
                },
                directory,
                initialized: false,
                invoker_real_root,
                lock_root: environment.lock_root.clone(),
                mounts,
                restrict_initialization: environment.restrict_initialization,
                sandbox_root: environment.sandbox_root.clone(),
                verbose: config.behavior.verbose,
                wait: config.behavior.wait,
            },
        )
    }

    /// Prepares the slot: verifies the initialization restriction, makes
    /// sure the sandbox root exists and that it and every ancestor is a
    /// directory writable only by its owner, recreates the per-sandbox
    /// directory with its `box` working subdirectory owned by the resolved
    /// identity, applies the mount plan and creates the control-group
    /// slice when one is configured.
    pub fn initialize<S: System>(&mut self, system: &S) -> (r: Result<(), Error>)
        ensures
            old(self).initialized ==> (r matches Err(e) && e is AlreadyInitialized),
            !old(self).initialized && old(self).restrict_initialization && !old(
                self,
            ).invoker_real_root ==> (r matches Err(e) && e matches Error::Permission(m) && m@
                == "you must be root to initialize the sandbox"@),
            r is Err ==> *final(self) == *old(self),
            r is Ok ==> {
                &&& !old(self).initialized
                &&& (old(self).restrict_initialization ==> old(self).invoker_real_root)
                &&& *final(self) == (Sandbox { initialized: true, ..*old(self) })
            },
    {
        if self.initialized {
            return Result::Err(Error::AlreadyInitialized);
        }
        if self.restrict_initialization && !self.invoker_real_root {
            return Result::Err(
                Error::Permission("you must be root to initialize the sandbox".to_owned()),
            );
        }
        // The sandbox root itself is created on first use.
        match system.path_info(self.sandbox_root.as_str()) {
            Result::Ok(PathInfo::Missing) => {
                match system.create_directory_with_mode(self.sandbox_root.as_str(), 0o700) {
                    Result::Ok(()) => {},
                    Result::Err(e) => {
                        return Result::Err(Error::Io(e));
                    },
                }
            },
            Result::Ok(_) => {},
            Result::Err(e) => {
                return Result::Err(Error::Io(e));
            },
        }
        // Against symlink and permission races in a world-writable
        // hierarchy: the sandbox root and all its ancestors must be
        // directories without group or other write access.
        let mut cur: String = self.sandbox_root.clone();
        loop
            invariant
                self == old(self),
                !old(self).initialized,
                old(self).restrict_initialization ==> old(self).invoker_real_root,
            decreases cur@.len(),
        {
            match system.path_info(cur.as_str()) {
                Result::Ok(info) => {
                    match check_ancestor(cur.as_str(), info) {
                        Result::Ok(()) => {},
                        Result::Err(e) => {
                            return Result::Err(e);
                        },
                    }
                },
                Result::Err(e) => {
                    return Result::Err(Error::Io(e));
                },
            }
            match parent_of(cur.as_str()) {
                Option::Some(parent) => {
                    proof {
                        lemma_parent_shorter(cur@);
                    }
                    cur = parent;
                },
                Option::None => {
                    break ;
                },
            }
        }
        match system.recreate_directory_with_mode(self.directory.as_str(), 0o700) {
            Result::Ok(()) => {},
            Result::Err(e) => {
                return Result::Err(Error::Io(e));
            },
        }
        let mut box_directory = self.directory.clone();
        box_directory.append("/box");
        match system.create_directory_with_mode(box_directory.as_str(), 0o700) {
            Result::Ok(()) => {},
            Result::Err(e) => {
                return Result::Err(Error::Io(e));
            },
        }
        // The sandboxed program writes into `box`, so it is owned by the
        // identity the program runs as.
        match system.chown(
            box_directory.as_str(),
            self.credentials.original_uid,
            self.credentials.original_gid,
        ) {
            Result::Ok(()) => {},
            Result::Err(e) => {
                return Result::Err(Error::Permission(e));
            },
        }
        let mut k: usize = 0;
        while k < self.mounts.len()
            invariant
                self == old(self),
                !old(self).initialized,
                old(self).restrict_initialization ==> old(self).invoker_real_root,
            decreases self.mounts.len() - k,
        {
            let m = &self.mounts[k];
            let mut skip_mount = false;
            if m.options.optional {
                let source = mount_source(m);
                match system.path_info(source.as_str()) {
                    Result::Ok(info) => {
                        skip_mount = skip_optional_mount(m.options.optional, info);
                    },
                    Result::Err(e) => {
                        return Result::Err(Error::Io(e));
                    },
                }
            }
            if !skip_mount {
                match system.apply_mount(self.directory.as_str(), m) {
                    Result::Ok(()) => {},
                    Result::Err(e) => {
                        return Result::Err(Error::Io(e));
                    },
                }
            }
            k = k + 1;
        }
        match &self.cgroup {
            Option::Some(cgroup) => {
                match system.create_cgroup(self.credentials.id, cgroup) {
                    Result::Ok(()) => {},
                    Result::Err(e) => {
                        return Result::Err(Error::Io(e));
                    },
                }
            },
            Option::None => {},
        }
        self.initialized = true;
        Result::Ok(())
    }

    /// Assembles the plan of one run: the program, arguments, limits,
    /// redirections, environment rules and working directory of the
    /// request, the request's resolved mount plan, and — decisive for the
    /// privilege boundary — the resolved run-as identity, not the uid/gid
    /// that own the sandbox slot.
    pub fn build_plan(&self, context: ExecutionContext) -> (p: ProcessPlan)
        ensures
            p.id == self.credentials.id,
            p.program == context.program,
            p.arguments == context.arguments,
            p.limits == context.limits,
            p.uid == self.credentials.original_uid,
            p.gid == self.credentials.original_gid,
            p.mounts.deep_view() == spec_resolve(context.mounts.deep_view()),
            p.stdin == context.stdin,
            p.stdout == context.stdout,
            p.stderr == context.stderr,
            p.stderr_to_stdout == context.stderr_to_stdout,
            p.inherit_env == context.inherit_env,
            p.inherit_fds == context.inherit_fds,
            p.share_net == context.share_net,
            p.silent == context.silent,
            p.special_files == context.special_files,
            p.tty_hack == context.tty_hack,
            p.variables == context.variables,
            p.working_directory == context.working_directory,
            p.box_directory@ == self.directory@ + "/box"@,
            p.use_cgroup == (self.cgroup is Some),
    {
        let mounts = resolve_mounts(context.mounts);
        let mut box_directory = self.directory.clone();
        box_directory.append("/box");
        ProcessPlan {
            id: self.credentials.id,
            program: context.program,
            arguments: context.arguments,
            limits: context.limits,
            uid: self.credentials.original_uid,
            gid: self.credentials.original_gid,
            mounts,
            stdin: context.stdin,
            stdout: context.stdout,
            stderr: context.stderr,
            stderr_to_stdout: context.stderr_to_stdout,
            inherit_env: context.inherit_env,
            inherit_fds: context.inherit_fds,
            share_net: context.share_net,
            silent: context.silent,
            special_files: context.special_files,
            tty_hack: context.tty_hack,
            variables: context.variables,
            working_directory: context.working_directory,
            box_directory,
            use_cgroup: self.cgroup.is_some(),
        }
    }

    /// Runs one program in the initialized sandbox.
    ///
    /// The request is validated, the plan [`Sandbox::build_plan`] fixes is
    /// handed to the system, and the reported termination is classified.
    /// A failure after the child is spawned is folded into an
    /// `InternalError` result rather than returned, with the accounting
    /// gathered so far retained; the call itself fails only on an invalid
    /// request.
    pub fn execute<S: System>(&self, context: ExecutionContext, system: &S) -> (r: Result<
        ExecutionResult,
        Error,
    >)
        ensures
            !self.initialized ==> (r matches Err(e) && e is NotInitialized),
            self.initialized && context.stderr_to_stdout && context.stderr is Some ==> (r matches Err(
                e,
            ) && e matches Error::Config(m) && m@
                == "`stderr` and `stderr_to_stdout` are mutually exclusive"@),
            self.initialized && !(context.stderr_to_stdout && context.stderr is Some) ==> r is Ok,
    {
        if !self.initialized {
            return Result::Err(Error::NotInitialized);
        }
        if context.stderr_to_stdout && context.stderr.is_some() {
            return Result::Err(
                Error::Config("`stderr` and `stderr_to_stdout` are mutually exclusive".to_owned()),
            );
        }
        let plan = self.build_plan(context);
        match system.run_program(&plan) {
            Result::Ok(raw) => Result::Ok(build_execution_result(raw)),
            Result::Err(failure) => Result::Ok(internal_error_result(failure)),
        }
    }

    /// Removes the per-sandbox directory tree and releases the
    /// control-group slice.  Cleaning up twice fails with `NotInitialized`,
    /// so callers track the state explicitly.
    pub fn cleanup<S: System>(&mut self, system: &S) -> (r: Result<(), Error>)
        ensures
            !old(self).initialized ==> (r matches Err(e) && e is NotInitialized),
            r is Err ==> *final(self) == *old(self),
            r is Ok ==> {
                &&& old(self).initialized
                &&& *final(self) == (Sandbox { initialized: false, ..*old(self) })
            },
    {
        if !self.initialized {
            return Result::Err(Error::NotInitialized);
        }
        match system.remove_directory_tree(self.directory.as_str()) {
            Result::Ok(()) => {},
            Result::Err(e) => {
                return Result::Err(Error::Io(e));
            },
        }
        match &self.cgroup {
            Option::Some(cgroup) => {
                match system.release_cgroup(self.credentials.id, cgroup) {
                    Result::Ok(()) => {},
                    Result::Err(e) => {
                        return Result::Err(Error::Io(e));
                    },
                }
            },
            Option::None => {},
        }
        self.initialized = false;
        Result::Ok(())
    }
}

} // verus!
