use write_only::validator::{holds, validate, IntegrityFault};

fn list(items: &[&str]) -> Vec<String> {
    items.iter().map(|s| s.to_string()).collect()
}

#[test]
fn subset_is_valid() {
    assert_eq!(validate(&list(&["b", "a"]), &list(&["a", "b", "c"])), Ok(()));
    assert_eq!(validate(&list(&["a", "b"]), &list(&["a", "b"])), Ok(()));
}

#[test]
fn empty_ledger_is_valid() {
    assert_eq!(validate(&list(&[]), &list(&["a"])), Ok(()));
    assert_eq!(validate(&list(&[]), &list(&[])), Ok(()));
}

#[test]
fn unknown_fingerprint_is_a_fault() {
    assert_eq!(
        validate(&list(&["a", "x", "b"]), &list(&["a", "b"])),
        Err(IntegrityFault { position: 1, fingerprint: "x".to_string() })
    );
}

#[test]
fn first_unknown_fingerprint_is_reported() {
    assert_eq!(
        validate(&list(&["a", "x", "y"]), &list(&["a"])),
        Err(IntegrityFault { position: 1, fingerprint: "x".to_string() })
    );
    assert_eq!(
        validate(&list(&["x"]), &list(&[])),
        Err(IntegrityFault { position: 0, fingerprint: "x".to_string() })
    );
}

#[test]
fn holds_finds_what_is_there() {
    assert!(holds(&list(&["a", "b"]), &"b".to_string()));
    assert!(!holds(&list(&["a", "b"]), &"c".to_string()));
    assert!(!holds(&list(&[]), &"a".to_string()));
}
