use doorstop::environment::Environment;

#[test]
fn environment_get_and_set() {
    let mut environment = Environment::new();
    assert_eq!(environment.get("A"), None);
    assert!(!environment.is_set("A"));
    environment.set("A", "1");
    environment.set("B", "2");
    assert_eq!(environment.get("A"), Some("1"));
    assert_eq!(environment.get("B"), Some("2"));
    environment.set("A", "3");
    assert_eq!(environment.get("A"), Some("3"));
    assert_eq!(environment.get("B"), Some("2"));
    assert_eq!(environment.variables.len(), 2);
    assert!(environment.is_set("B"));
    assert_eq!(environment.get("a"), None);
}
