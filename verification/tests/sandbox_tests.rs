use std::cell::RefCell;

use isolate::CgroupConfig;
use isolate::Config;
use isolate::Environment;
use isolate::Error;
use isolate::ExecutionContext;
use isolate::Mount;
use isolate::PathInfo;
use isolate::ProcessPlan;
use isolate::RawTermination;
use isolate::RunFailure;
use isolate::check_ancestor;
use isolate::check_effective_root;
use isolate::setegid_failure;
use isolate::skip_optional_mount;
use isolate::Sandbox;
use isolate::SecurityConfig;
use isolate::Status;
use isolate::System;

struct MockSystem {
    egid: u32,
    euid: u32,
    gid: u32,
    uid: u32,
    setegid_error: Option<String>,
    create_error: Option<String>,
    run_failure: RefCell<Option<RunFailure>>,
    umask: RefCell<Option<u32>>,
    /// Paths that do not exist until something creates them.
    missing: Vec<String>,
    /// Paths reported as directories with group/other write bits set.
    loose: Vec<String>,
    created: RefCell<Vec<(String, u32)>>,
    recreated: RefCell<Vec<(String, u32)>>,
    chowned: RefCell<Vec<(String, u32, u32)>>,
    mounted: RefCell<Vec<String>>,
    removed: RefCell<Vec<String>>,
    cgroups: RefCell<Vec<u32>>,
    raw: RefCell<Option<RawTermination>>,
}

impl MockSystem {
    fn root() -> Self {
        MockSystem {
            egid: 0,
            euid: 0,
            gid: 0,
            uid: 0,
            setegid_error: None,
            create_error: None,
            run_failure: RefCell::new(None),
            umask: RefCell::new(None),
            missing: Vec::new(),
            loose: Vec::new(),
            created: RefCell::new(Vec::new()),
            recreated: RefCell::new(Vec::new()),
            chowned: RefCell::new(Vec::new()),
            mounted: RefCell::new(Vec::new()),
            removed: RefCell::new(Vec::new()),
            cgroups: RefCell::new(Vec::new()),
            raw: RefCell::new(None),
        }
    }

    fn was_created(&self, path: &str) -> bool {
        self.created.borrow().iter().any(|(p, _)| p == path)
            || self.recreated.borrow().iter().any(|(p, _)| p == path)
    }
}

impl System for MockSystem {
    fn getuid(&self) -> u32 {
        self.uid
    }

    fn getgid(&self) -> u32 {
        self.gid
    }

    fn geteuid(&self) -> u32 {
        self.euid
    }

    fn getegid(&self) -> u32 {
        self.egid
    }

    fn setegid(&self, _gid: u32) -> Result<(), String> {
        match &self.setegid_error {
            Some(e) => Err(e.clone()),
            None => Ok(()),
        }
    }

    fn umask(&self, mask: u32) -> u32 {
        *self.umask.borrow_mut() = Some(mask);
        0
    }

    fn chown(&self, path: &str, uid: u32, gid: u32) -> Result<(), String> {
        self.chowned.borrow_mut().push((path.to_string(), uid, gid));
        Ok(())
    }

    fn create_directory_with_mode(&self, path: &str, mode: u32) -> Result<(), String> {
        if let Some(e) = &self.create_error {
            return Err(e.clone());
        }
        self.created.borrow_mut().push((path.to_string(), mode));
        Ok(())
    }

    fn recreate_directory_with_mode(&self, path: &str, mode: u32) -> Result<(), String> {
        self.recreated.borrow_mut().push((path.to_string(), mode));
        Ok(())
    }

    fn remove_directory_tree(&self, path: &str) -> Result<(), String> {
        self.removed.borrow_mut().push(path.to_string());
        Ok(())
    }

    fn path_info(&self, path: &str) -> Result<PathInfo, String> {
        if self.loose.iter().any(|p| p == path) {
            return Ok(PathInfo::Directory { mode: 0o770 });
        }
        if self.missing.iter().any(|p| p == path) && !self.was_created(path) {
            return Ok(PathInfo::Missing);
        }
        Ok(PathInfo::Directory { mode: 0o700 })
    }

    fn apply_mount(&self, _sandbox_directory: &str, mount: &Mount) -> Result<(), String> {
        self.mounted.borrow_mut().push(mount.inside_path.clone());
        Ok(())
    }

    fn create_cgroup(&self, id: u32, _config: &CgroupConfig) -> Result<(), String> {
        self.cgroups.borrow_mut().push(id);
        Ok(())
    }

    fn release_cgroup(&self, id: u32, _config: &CgroupConfig) -> Result<(), String> {
        self.cgroups.borrow_mut().retain(|x| *x != id);
        Ok(())
    }

    fn run_program(&self, _plan: &ProcessPlan) -> Result<RawTermination, RunFailure> {
        if let Some(failure) = self.run_failure.borrow_mut().take() {
            return Err(failure);
        }
        match self.raw.borrow_mut().take() {
            Some(raw) => Ok(raw),
            None => Ok(RawTermination::default()),
        }
    }
}

#[test]
fn new_sandbox_without_root_euid() {
    let config = Config::default();

    let mock = MockSystem {
        euid: 1000, // The effective uid here is not root.
        uid: 1000,
        ..MockSystem::root()
    };

    let result = Sandbox::new(config, &Environment::default(), &mock);

    assert!(matches!(result, Err(Error::NotRoot)));
}

#[test]
fn new_sandbox_setegid_fails_with_eperm() {
    let config = Config::default();

    let mock = MockSystem {
        egid: 1000, // The effective gid here is not root.
        gid: 1000,
        // Simulates an EPERM failure.
        setegid_error: Some("EPERM: Operation not permitted".to_string()),
        ..MockSystem::root()
    };

    let result = Sandbox::new(config, &Environment::default(), &mock);

    assert!(matches!(
        result,
        Err(Error::Permission(message)) if message.contains("cannot switch to root group")
    ));
}

#[test]
fn new_sandbox_setegid_fails_with_einval() {
    let config = Config::default();

    let mock = MockSystem {
        egid: 1000, // The effective gid here is not root.
        gid: 1000,
        // Simulates an EINVAL failure.
        setegid_error: Some("EINVAL: Invalid argument".to_string()),
        ..MockSystem::root()
    };

    let result = Sandbox::new(config, &Environment::default(), &mock);

    assert!(matches!(
        result,
        Err(Error::Permission(message)) if message.contains("cannot switch to root group")
    ));
}

#[test]
fn new_sandbox_as_uid_as_gid_non_root_original() {
    let config = Config {
        security: SecurityConfig {
            as_uid: Some(2000),
            as_gid: Some(2000),
            ..Default::default()
        },
        ..Default::default()
    };

    let mock = MockSystem {
        gid: 1000,
        uid: 1000, // The real uid here is not root.
        ..MockSystem::root()
    };

    let result = Sandbox::new(config, &Environment::default(), &mock);

    assert!(matches!(
        result,
        Err(Error::Permission(message)) if message.contains("you must be root to use `as_uid` or `as_gid`")
    ));
}

#[test]
fn new_sandbox_as_uid_without_as_gid() {
    let config = Config {
        security: SecurityConfig {
            as_uid: Some(2000),
            ..Default::default()
        },
        ..Default::default()
    };

    let mock = MockSystem::root();

    let result = Sandbox::new(config, &Environment::default(), &mock);

    assert!(matches!(
        result,
        Err(Error::Config(message)) if message.contains("`as_uid` and `as_gid` must be used either both or none")
    ));
}

#[test]
fn new_sandbox_valid_no_as() {
    let config = Config::default();

    let mock = MockSystem::root();

    let sandbox = Sandbox::new(config, &Environment::default(), &mock)
        .expect("Sandbox creation should succeed");

    // With no as_uid/as_gid, the sandbox takes the original uid/gid from
    // the system.
    assert_eq!(sandbox.credentials.original_gid, 0);
    assert_eq!(sandbox.credentials.original_uid, 0);

    assert_eq!(mock.umask.borrow().unwrap(), 0o022);
}

#[test]
fn new_sandbox_valid_with_as() {
    let config = Config {
        security: SecurityConfig {
            as_uid: Some(2000),
            as_gid: Some(2000),
            ..Default::default()
        },
        ..Default::default()
    };

    // In this scenario, the real uid/gid is root so using as_uid/as_gid is
    // allowed.
    let mock = MockSystem::root();

    let sandbox = Sandbox::new(config, &Environment::default(), &mock)
        .expect("Sandbox creation should succeed");

    // When as_uid/as_gid are provided and allowed, the sandbox's ids are
    // set to those values.
    assert_eq!(sandbox.credentials.original_uid, 2000);
    assert_eq!(sandbox.credentials.original_gid, 2000);
}

#[test]
fn new_sandbox_box_dir_setup() {
    let environment = Environment {
        sandbox_root: "/tmp/isolate_test".to_string(),
        first_sandbox_uid: 10000,
        first_sandbox_gid: 20000,
        num_sandboxes: 10,
        ..Default::default()
    };

    let config = Config {
        security: SecurityConfig {
            sandbox_id: Some(5),
            ..Default::default()
        },
        ..Default::default()
    };

    let mock = MockSystem::root();

    let sandbox =
        Sandbox::new(config, &environment, &mock).expect("Sandbox creation should succeed");

    assert_eq!(sandbox.directory, "/tmp/isolate_test/5");

    assert_eq!(sandbox.credentials.gid, 20000 + 5);
    assert_eq!(sandbox.credentials.id, 5);
    assert_eq!(sandbox.credentials.uid, 10000 + 5);
}

#[test]
fn new_sandbox_box_dir_out_of_range() {
    let environment = Environment {
        sandbox_root: "/tmp/isolate_test".to_string(),
        first_sandbox_gid: 20000,
        first_sandbox_uid: 10000,
        num_sandboxes: 10, // Valid box ids are between 0 and 9 (inclusive).
        ..Default::default()
    };

    let config = Config {
        security: SecurityConfig {
            sandbox_id: Some(10),
            ..Default::default()
        },
        ..Default::default()
    };

    let mock = MockSystem::root();

    let result = Sandbox::new(config, &environment, &mock);

    assert!(matches!(
        result,
        Err(Error::Config(message)) if message.contains("sandbox id out of range")
    ));
}

#[test]
fn sandbox_id_range_message_names_range() {
    let environment = Environment {
        num_sandboxes: 10,
        ..Default::default()
    };
    let config = Config {
        security: SecurityConfig {
            sandbox_id: Some(10),
            ..Default::default()
        },
        ..Default::default()
    };
    let result = Sandbox::new(config, &environment, &MockSystem::root());
    assert!(matches!(
        result,
        Err(Error::Config(message)) if message == "sandbox id out of range (allowed: 0-9)"
    ));
}

#[test]
fn environment_restricts_sandbox_initialization() {
    let environment = Environment {
        num_sandboxes: 10,
        restrict_initialization: true,
        ..Default::default()
    };

    let config = Config {
        security: SecurityConfig {
            sandbox_id: Some(0),
            ..Default::default()
        },
        ..Default::default()
    };

    let mock = MockSystem {
        uid: 1000, // The real uid here is not root.
        ..MockSystem::root()
    };

    let mut sandbox =
        Sandbox::new(config, &environment, &mock).expect("Sandbox creation should succeed");

    let result = sandbox.initialize(&mock);

    assert!(matches!(
        result,
        Err(Error::Permission(message)) if message.contains("you must be root to initialize the sandbox")
    ));
}

#[test]
fn sandbox_lifecycle() {
    let environment = Environment {
        sandbox_root: "/tmp/isolate_life".to_string(),
        num_sandboxes: 10,
        ..Default::default()
    };
    let config = Config::default();
    let mut mock = MockSystem::root();
    mock.missing.push("/tmp/isolate_life".to_string());

    let mut sandbox =
        Sandbox::new(config, &environment, &mock).expect("Sandbox creation should succeed");
    assert!(!sandbox.initialized);

    sandbox.initialize(&mock).expect("initialization should succeed");
    assert!(sandbox.initialized);

    // The sandbox root was created, the per-sandbox directory recreated
    // fresh, and the box working directory created and handed to the
    // sandbox identity.
    assert!(mock
        .created
        .borrow()
        .contains(&("/tmp/isolate_life".to_string(), 0o700)));
    assert!(mock
        .recreated
        .borrow()
        .contains(&("/tmp/isolate_life/0".to_string(), 0o700)));
    assert!(mock
        .created
        .borrow()
        .contains(&("/tmp/isolate_life/0/box".to_string(), 0o700)));
    assert!(mock
        .chowned
        .borrow()
        .contains(&("/tmp/isolate_life/0/box".to_string(), 0, 0)));

    // The whole default mount plan was applied, in order.
    assert_eq!(
        *mock.mounted.borrow(),
        vec!["box", "bin", "dev", "lib", "lib64", "proc", "tmp", "usr"]
    );

    // A second initialization is refused.
    assert!(matches!(
        sandbox.initialize(&mock),
        Err(Error::AlreadyInitialized)
    ));

    // A clean run reports no status.
    let result = sandbox
        .execute(ExecutionContext::default(), &mock)
        .expect("execution should succeed");
    assert_eq!(result.status, None);

    // The sandbox stays initialized, so execution is repeatable.
    assert!(sandbox.initialized);

    sandbox.cleanup(&mock).expect("cleanup should succeed");
    assert!(!sandbox.initialized);
    assert!(mock
        .removed
        .borrow()
        .contains(&"/tmp/isolate_life/0".to_string()));

    // Cleaning up twice is refused.
    assert!(matches!(sandbox.cleanup(&mock), Err(Error::NotInitialized)));
}

#[test]
fn execute_before_initialize_fails() {
    let sandbox = Sandbox::new(Config::default(), &Environment::default(), &MockSystem::root())
        .expect("Sandbox creation should succeed");
    let result = sandbox.execute(ExecutionContext::default(), &MockSystem::root());
    assert!(matches!(result, Err(Error::NotInitialized)));
}

#[test]
fn cleanup_before_initialize_fails() {
    let mut sandbox =
        Sandbox::new(Config::default(), &Environment::default(), &MockSystem::root())
            .expect("Sandbox creation should succeed");
    assert!(matches!(
        sandbox.cleanup(&MockSystem::root()),
        Err(Error::NotInitialized)
    ));
}

#[test]
fn execute_rejects_stderr_conflict() {
    let mock = MockSystem::root();
    let mut sandbox = Sandbox::new(Config::default(), &Environment::default(), &mock)
        .expect("Sandbox creation should succeed");
    sandbox.initialize(&mock).expect("initialization should succeed");

    let mut context = ExecutionContext::default();
    context.stderr = Some("/err.txt".to_string());
    context.stderr_to_stdout = true;

    let result = sandbox.execute(context, &mock);
    assert!(matches!(
        result,
        Err(Error::Config(message)) if message.contains("mutually exclusive")
    ));
}

#[test]
fn execute_classifies_what_the_child_reports() {
    let mock = MockSystem::root();
    let mut sandbox = Sandbox::new(Config::default(), &Environment::default(), &mock)
        .expect("Sandbox creation should succeed");
    sandbox.initialize(&mock).expect("initialization should succeed");

    *mock.raw.borrow_mut() = Some(RawTermination {
        exit_code: Some(7),
        ..Default::default()
    });
    let result = sandbox
        .execute(ExecutionContext::default(), &mock)
        .expect("execution should succeed");
    assert_eq!(result.status, Some(Status::RuntimeError));
    assert_eq!(result.exit_code, 7);

    *mock.raw.borrow_mut() = Some(RawTermination {
        termination_signal: Some(9),
        terminated_by_sandbox: true,
        ..Default::default()
    });
    let result = sandbox
        .execute(ExecutionContext::default(), &mock)
        .expect("execution should succeed");
    assert_eq!(result.status, Some(Status::Timeout));
    assert!(result.terminated_by_sandbox);
}

#[test]
fn execute_folds_late_failure_into_internal_error() {
    // A failure after the point of no return is reported in the result,
    // not as a call failure, and the accounting gathered up to the
    // failure is retained rather than lost.
    let mock = MockSystem::root();
    *mock.run_failure.borrow_mut() = Some(RunFailure {
        message: "exec failed".to_string(),
        accounting: RawTermination {
            cpu_time_ms: 250,
            wall_time_ms: 900,
            peak_memory_kb: 1234,
            cgroup_memory_kb: 555,
            killed_by_oom: true,
            context_switches_voluntary: 7,
            context_switches_forced: 3,
            ..Default::default()
        },
    });
    let mut sandbox = Sandbox::new(Config::default(), &Environment::default(), &mock)
        .expect("Sandbox creation should succeed");
    sandbox.initialize(&mock).expect("initialization should succeed");
    let result = sandbox
        .execute(ExecutionContext::default(), &mock)
        .expect("execution should succeed");
    assert_eq!(result.status, Some(Status::InternalError));
    assert_eq!(result.status_message, "exec failed");
    assert_eq!(result.cpu_time_ms, 250);
    assert_eq!(result.wall_time_ms, 900);
    assert_eq!(result.peak_memory_kb, 1234);
    assert_eq!(result.cgroup_memory_kb, 555);
    assert!(result.killed_by_oom);
    assert_eq!(result.context_switches_voluntary, 7);
    assert_eq!(result.context_switches_forced, 3);
}

#[test]
fn initialize_reports_filesystem_failure() {
    let environment = Environment {
        sandbox_root: "/tmp/isolate_io".to_string(),
        ..Default::default()
    };
    let mut mock = MockSystem::root();
    mock.missing.push("/tmp/isolate_io".to_string());
    mock.create_error = Some("read-only file system".to_string());

    let mut sandbox = Sandbox::new(Config::default(), &environment, &mock)
        .expect("Sandbox creation should succeed");
    let result = sandbox.initialize(&mock);
    assert!(matches!(
        result,
        Err(Error::Io(message)) if message.contains("read-only file system")
    ));
    assert!(!sandbox.initialized);
}

#[test]
fn sandbox_with_cgroup_slice() {
    let config = Config {
        cgroup: Some(CgroupConfig::default()),
        ..Default::default()
    };
    let mock = MockSystem::root();
    let mut sandbox = Sandbox::new(config, &Environment::default(), &mock)
        .expect("Sandbox creation should succeed");
    sandbox.initialize(&mock).expect("initialization should succeed");
    assert_eq!(*mock.cgroups.borrow(), vec![0]);
    sandbox.cleanup(&mock).expect("cleanup should succeed");
    assert!(mock.cgroups.borrow().is_empty());
}

#[test]
fn ancestor_check_decides_per_path() {
    // A directory writable only by its owner is acceptable.
    assert!(check_ancestor("/srv", PathInfo::Directory { mode: 0o700 }).is_ok());
    assert!(check_ancestor("/", PathInfo::Directory { mode: 0o755 }).is_ok());
    // Group- or other-write bits are rejected.
    assert!(matches!(
        check_ancestor("/tmp", PathInfo::Directory { mode: 0o770 }),
        Err(Error::Permission(m)) if m == "`/tmp` must be writable only by root"
    ));
    assert!(matches!(
        check_ancestor("/tmp", PathInfo::Directory { mode: 0o702 }),
        Err(Error::Permission(m)) if m.contains("must be writable only by root")
    ));
    // Anything that is not a directory is rejected too.
    assert!(matches!(
        check_ancestor("/srv/link", PathInfo::Other),
        Err(Error::Permission(m)) if m == "`/srv/link` must be a directory writable only by root"
    ));
    assert!(matches!(
        check_ancestor("/gone", PathInfo::Missing),
        Err(Error::Permission(m)) if m.contains("must be a directory writable only by root")
    ));
}

#[test]
fn optional_mount_skip_decision() {
    // Exactly the optional mounts whose source is missing are skipped.
    assert!(skip_optional_mount(true, PathInfo::Missing));
    assert!(!skip_optional_mount(true, PathInfo::Directory { mode: 0o755 }));
    assert!(!skip_optional_mount(true, PathInfo::Other));
    assert!(!skip_optional_mount(false, PathInfo::Missing));
}

#[test]
fn effective_root_gate() {
    assert!(check_effective_root(0).is_ok());
    assert!(matches!(check_effective_root(1000), Err(Error::NotRoot)));
    assert!(matches!(check_effective_root(1), Err(Error::NotRoot)));
}

#[test]
fn setegid_failure_names_cause() {
    assert!(matches!(
        setegid_failure("EPERM: Operation not permitted".to_string()),
        Error::Permission(m) if m == "cannot switch to root group: EPERM: Operation not permitted"
    ));
}

#[test]
fn build_plan_uses_resolved_identity() {
    // The plan carries the identity the program runs as (the override
    // pair), never the uid/gid that own the sandbox slot.
    let environment = Environment {
        first_sandbox_uid: 10000,
        first_sandbox_gid: 20000,
        num_sandboxes: 10,
        ..Default::default()
    };
    let config = Config {
        security: SecurityConfig {
            as_uid: Some(2000),
            as_gid: Some(2001),
            sandbox_id: Some(5),
            ..Default::default()
        },
        ..Default::default()
    };
    let sandbox = Sandbox::new(config, &environment, &MockSystem::root())
        .expect("Sandbox creation should succeed");
    assert_eq!(sandbox.credentials.uid, 10005);
    assert_eq!(sandbox.credentials.gid, 20005);

    let mut context = ExecutionContext::new("/bin/true".to_string(), None);
    context.mounts.push(Mount::read_only("box", Some("/elsewhere")).unwrap());
    let plan = sandbox.build_plan(context);

    assert_eq!(plan.uid, 2000);
    assert_eq!(plan.gid, 2001);
    assert_eq!(plan.id, 5);
    assert_eq!(plan.program, "/bin/true");
    assert_eq!(plan.box_directory, "/var/local/lib/isolate/5/box");
    // The context's mounts are handed over resolved: the later `box`
    // declaration replaced the default entry in place.
    assert_eq!(plan.mounts.len(), 8);
    assert_eq!(plan.mounts[0].inside_path, "box");
    assert_eq!(plan.mounts[0].outside_path, Some("/elsewhere".to_string()));
}
