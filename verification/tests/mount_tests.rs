use isolate::Error;
use isolate::ExecutionContext;
use isolate::Mount;
use isolate::MountOptions;
use isolate::resolve_mounts;

#[test]
fn valid_mount() {
    let mount = Mount::new(
        "/sandbox/path",
        Some("/host/path"),
        MountOptions::default(),
    );

    assert!(mount.is_ok());
}

#[test]
fn mount_temporary_with_outside_path() {
    let options = MountOptions {
        temporary: true,
        ..Default::default()
    };

    let mount = Mount::new("/sandbox/path", Some("/host/path"), options);

    assert!(matches!(
        mount,
        Err(Error::Mount(message)) if message.contains("temporary directory cannot have an outside path")
    ));
}

#[test]
fn mount_temporary_implies_read_write() {
    let options = MountOptions {
        temporary: true,
        read_write: false,
        ..Default::default()
    };

    let mount = Mount::new("/sandbox/path", None, options);

    assert!(mount.is_ok());
    assert!(mount.unwrap().options.read_write);
}

#[test]
fn mount_builders() {
    let rw = Mount::read_write("test", Some("/test")).unwrap();

    assert_eq!(
        rw.options,
        MountOptions {
            read_write: true,
            ..Default::default()
        }
    );

    let dev = Mount::device("dev", None).unwrap();

    assert_eq!(
        dev.options,
        MountOptions {
            allow_devices: true,
            ..Default::default()
        }
    );

    let tmp = Mount::temporary("tmp").unwrap();

    assert_eq!(
        tmp,
        Mount {
            inside_path: "tmp".to_string(),
            outside_path: None,
            options: MountOptions {
                temporary: true,
                read_write: true,
                ..Default::default()
            }
        }
    );

    let fs = Mount::filesystem("proc", "proc").unwrap();

    assert_eq!(
        fs.options,
        MountOptions {
            filesystem: Some("proc".to_string()),
            ..Default::default()
        }
    );
}

#[test]
fn default_mount_set() {
    let mounts = ExecutionContext::default_mounts();
    let insides: Vec<&str> = mounts.iter().map(|m| m.inside_path.as_str()).collect();
    assert_eq!(
        insides,
        vec!["box", "bin", "dev", "lib", "lib64", "proc", "tmp", "usr"]
    );
    assert_eq!(mounts[0].outside_path, Some("./box".to_string()));
    assert!(mounts[0].options.read_write);
    assert!(mounts[2].options.allow_devices);
    assert!(mounts[4].options.optional);
    assert_eq!(mounts[5].options.filesystem, Some("proc".to_string()));
    assert!(mounts[6].options.temporary && mounts[6].options.read_write);
}

#[test]
fn resolution_replacement_keeps_position() {
    // Declare `a`, then `a/b`, then replace `a` with new options: the
    // replacement keeps `a`'s original position and `a/b` stays after it.
    let declarations = vec![
        Mount::read_only("a", Some("/host/a")).unwrap(),
        Mount::read_only("a/b", Some("/host/ab")).unwrap(),
        Mount::read_write("a", Some("/host/new-a")).unwrap(),
    ];
    let plan = resolve_mounts(declarations);
    assert_eq!(plan.len(), 2);
    assert_eq!(plan[0].inside_path, "a");
    assert_eq!(plan[0].outside_path, Some("/host/new-a".to_string()));
    assert!(plan[0].options.read_write);
    assert_eq!(plan[1].inside_path, "a/b");
}

#[test]
fn resolution_keeps_declaration_order() {
    // `a/b` declared before `a` keeps its earlier position and is thereby
    // shadowed by the later mount at `a`; that ordering is deliberate.
    let declarations = vec![
        Mount::read_only("a/b", Some("/host/ab")).unwrap(),
        Mount::read_only("a", Some("/host/a")).unwrap(),
    ];
    let plan = resolve_mounts(declarations);
    assert_eq!(plan.len(), 2);
    assert_eq!(plan[0].inside_path, "a/b");
    assert_eq!(plan[1].inside_path, "a");
}

#[test]
fn resolution_of_empty_list() {
    let plan = resolve_mounts(Vec::new());
    assert!(plan.is_empty());
}

#[test]
fn resolution_replaces_default_mount() {
    // A user declaration for `box` replaces the default entry in place.
    let mut declarations = ExecutionContext::default_mounts();
    declarations.push(Mount::read_only("box", Some("/elsewhere")).unwrap());
    let plan = resolve_mounts(declarations);
    assert_eq!(plan.len(), 8);
    assert_eq!(plan[0].inside_path, "box");
    assert_eq!(plan[0].outside_path, Some("/elsewhere".to_string()));
    assert!(!plan[0].options.read_write);
}
