use isolate::Action;
use isolate::Variable;

#[test]
fn action_display() {
    assert_eq!(Action::Inherit.text(), "inherit");
    assert_eq!(Action::Clear.text(), "clear");
    assert_eq!(Action::Assign("test".to_string()).text(), "set(test)");
}

#[test]
fn variable_creation() {
    let var = Variable::new("KEY".to_string(), Action::Inherit);
    assert_eq!(var.key, "KEY");
    assert_eq!(var.action, Action::Inherit);

    let var = Variable::with_set_value("KEY".to_string(), "value".to_string());
    assert_eq!(var.key, "KEY");
    assert_eq!(var.action, Action::Assign("value".to_string()));

    let string_key = String::from("KEY");
    let var = Variable::new(string_key, Action::Clear);
    assert_eq!(var.key, "KEY");
}

#[test]
fn variable_state_checks() {
    let inherit_var = Variable::new("KEY".to_string(), Action::Inherit);
    assert!(inherit_var.is_inherit());
    assert!(!inherit_var.is_clear());

    let clear_var = Variable::new("KEY".to_string(), Action::Clear);
    assert!(clear_var.is_clear());
    assert!(!clear_var.is_inherit());

    let set_var = Variable::with_set_value("KEY".to_string(), "value".to_string());
    assert!(!set_var.is_clear());
    assert!(!set_var.is_inherit());
}

#[test]
fn get_value() {
    let inherit_var = Variable::new("KEY".to_string(), Action::Inherit);
    assert_eq!(inherit_var.get_value(), None);

    let clear_var = Variable::new("KEY".to_string(), Action::Clear);
    assert_eq!(clear_var.get_value(), None);

    let set_var = Variable::with_set_value("KEY".to_string(), "value".to_string());
    assert_eq!(set_var.get_value(), Some("value"));
}

#[test]
fn variable_equality() {
    let var1 = Variable::with_set_value("KEY".to_string(), "value".to_string());
    let var2 = Variable::with_set_value("KEY".to_string(), "value".to_string());
    let var3 = Variable::with_set_value("KEY".to_string(), "different".to_string());

    assert_eq!(var1, var2);
    assert_ne!(var1, var3);
}

#[test]
fn variable_cloning() {
    let original = Variable::with_set_value("KEY".to_string(), "value".to_string());
    let cloned = original.clone();

    assert_eq!(original, cloned);

    // Ensure deep copy
    assert_eq!(original.get_value(), cloned.get_value());
}
