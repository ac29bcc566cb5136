use ibeji_samples::is_subset;
use ibeji_samples::misc;

#[test]
fn lib_is_subset_test() {
    assert!(is_subset(&[], &[]));
    assert!(is_subset(&[], &["one".to_string()]));
    assert!(is_subset(&[], &["one".to_string(), "two".to_string()]));
    assert!(is_subset(&["one".to_string()], &["one".to_string(), "two".to_string()]));
    assert!(is_subset(
        &["one".to_string(), "two".to_string()],
        &["one".to_string(), "two".to_string()]
    ));
    assert!(!is_subset(
        &["one".to_string(), "two".to_string(), "three".to_string()],
        &["one".to_string(), "two".to_string()]
    ));
    assert!(!is_subset(
        &["one".to_string(), "two".to_string(), "three".to_string()],
        &["one".to_string()]
    ));
    assert!(!is_subset(&["one".to_string(), "two".to_string(), "three".to_string()], &[]));
}

#[test]
fn misc_is_subset_test() {
    assert!(misc::is_subset(&[], &[]));
    assert!(misc::is_subset(&[], &["one".to_string()]));
    assert!(misc::is_subset(&[], &["one".to_string(), "two".to_string()]));
    assert!(misc::is_subset(&["one".to_string()], &["one".to_string(), "two".to_string()]));
    assert!(misc::is_subset(
        &["one".to_string(), "two".to_string()],
        &["one".to_string(), "two".to_string()]
    ));
    assert!(!misc::is_subset(
        &["one".to_string(), "two".to_string(), "three".to_string()],
        &["one".to_string(), "two".to_string()]
    ));
    assert!(!misc::is_subset(
        &["one".to_string(), "two".to_string(), "three".to_string()],
        &["one".to_string()]
    ));
    assert!(!misc::is_subset(&["one".to_string(), "two".to_string(), "three".to_string()], &[]));
}

#[test]
fn utils_is_subset_test() {
    assert!(is_subset(&[], &[]));
    assert!(is_subset(&[], &["one".to_string()]));
    assert!(is_subset(&[], &["one".to_string(), "two".to_string()]));
    assert!(is_subset(&["one".to_string()], &["one".to_string()]));
    assert!(is_subset(&["one".to_string()], &["one".to_string(), "two".to_string()]));
    assert!(is_subset(
        &["one".to_string(), "two".to_string()],
        &["one".to_string(), "two".to_string()]
    ));
    assert!(!is_subset(
        &["one".to_string(), "two".to_string(), "three".to_string()],
        &["one".to_string(), "two".to_string()]
    ));
    assert!(!is_subset(
        &["one".to_string(), "two".to_string(), "three".to_string()],
        &["one".to_string()]
    ));
    assert!(!is_subset(&["one".to_string(), "two".to_string(), "three".to_string()], &[]));
}

#[test]
fn is_subset_ignores_order_and_repeats() {
    assert!(is_subset(
        &["two".to_string(), "one".to_string(), "two".to_string()],
        &["one".to_string(), "two".to_string()]
    ));
    assert!(!is_subset(&["One".to_string()], &["one".to_string()]));
}
