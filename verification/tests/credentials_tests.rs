use isolate::Error;
use isolate::resolve_credentials;
use isolate::validate_sandbox_id;

#[test]
fn credentials_without_overrides_keep_invoker() {
    assert_eq!(resolve_credentials(None, None, 1000, 1001), Ok((1000, 1001)));
    assert_eq!(resolve_credentials(None, None, 0, 0), Ok((0, 0)));
}

#[test]
fn credentials_one_sided_override_is_config_error() {
    assert!(matches!(
        resolve_credentials(Some(2000), None, 0, 0),
        Err(Error::Config(m)) if m.contains("must be used either both or none")
    ));
    assert!(matches!(
        resolve_credentials(None, Some(2000), 0, 0),
        Err(Error::Config(m)) if m.contains("must be used either both or none")
    ));
}

#[test]
fn credentials_override_needs_root() {
    assert!(matches!(
        resolve_credentials(Some(2000), Some(2001), 1000, 1000),
        Err(Error::Permission(m)) if m.contains("you must be root")
    ));
    assert_eq!(
        resolve_credentials(Some(2000), Some(2001), 0, 5),
        Ok((2000, 2001))
    );
}

#[test]
fn sandbox_id_validation() {
    assert!(validate_sandbox_id(0, 10).is_ok());
    assert!(validate_sandbox_id(9, 10).is_ok());
    assert!(matches!(
        validate_sandbox_id(10, 10),
        Err(Error::Config(m)) if m == "sandbox id out of range (allowed: 0-9)"
    ));
    assert!(validate_sandbox_id(0, 1).is_ok());
    assert!(matches!(
        validate_sandbox_id(1, 1),
        Err(Error::Config(m)) if m == "sandbox id out of range (allowed: 0-0)"
    ));
}
