use fallible_collections::Attribute;
use std::time::Duration;

#[test]
fn default_attribute() {
    let a = Attribute::default();
    assert_eq!(a.name, "default-test-name");
    assert!(a.test);
    assert!(!a.terminate);
    assert_eq!(a.show_output, None);
    assert_eq!(a.timeout, None);
}

#[test]
fn each_setter_changes_one_field() {
    let a = Attribute::default()
        .name(String::from("build"))
        .test(false)
        .terminate(true)
        .show_output(Some(true))
        .timeout(Some(Duration::from_secs(3)));
    assert_eq!(a.name, "build");
    assert!(!a.test);
    assert!(a.terminate);
    assert_eq!(a.show_output, Some(true));
    assert_eq!(a.timeout, Some(Duration::from_secs(3)));
    let b = a.clone().terminate(false);
    assert_eq!(b.name, "build");
    assert!(!b.test);
    assert!(!b.terminate);
    assert_eq!(b.show_output, Some(true));
    assert_eq!(b.timeout, Some(Duration::from_secs(3)));
}
