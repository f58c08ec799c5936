use write_only::fingerprint::fingerprint;
use write_only::registry::{MigrationScript, Registry};

#[test]
fn fingerprint_of_the_empty_text() {
    assert_eq!(
        fingerprint(""),
        "e3b0c44298fc1c149afbf4c8996fb92427ae41e4649b934ca495991b7852b855"
    );
}

#[test]
fn fingerprint_of_abc() {
    assert_eq!(
        fingerprint("abc"),
        "ba7816bf8f01cfea414140de5dae2223b00361a396177a9cb410ff61f20015ad"
    );
}

#[test]
fn fingerprint_is_not_the_text() {
    let text = "CREATE TABLE post (body text);";
    let fp = fingerprint(text);
    assert_ne!(fp, text);
    assert_eq!(fp.len(), 64);
    assert!(fp.chars().all(|c| c.is_ascii_digit() || ('a'..='f').contains(&c)));
}

#[test]
fn fingerprint_is_the_same_for_the_same_text() {
    let a = String::from("CREATE TABLE author (email text PRIMARY KEY);");
    let b = a.clone();
    assert_eq!(fingerprint(&a), fingerprint(&b));
    assert_eq!(fingerprint(&a), fingerprint(&a));
}

#[test]
fn fingerprint_differs_for_one_changed_byte() {
    assert_ne!(
        fingerprint("CREATE TABLE a (x text);"),
        fingerprint("CREATE TABLE a (y text);")
    );
    assert_ne!(fingerprint("a"), fingerprint("a "));
}

#[test]
fn fingerprint_reads_the_utf8_bytes() {
    assert_eq!(
        fingerprint("é"),
        "4a99557e4033c3539de2eb65472017cad5f9557f7a0625a09f1c3f6e2ba69c4c"
    );
}

#[test]
fn registry_keeps_the_order_given() {
    let registry = Registry::new(vec!["b".to_string(), "a".to_string()]);
    assert_eq!(registry.len(), 2);
    assert_eq!(registry.text(0), Some(&"b".to_string()));
    assert_eq!(registry.text(1), Some(&"a".to_string()));
    assert_eq!(registry.text(2), None);
    assert_eq!(
        registry.script(1),
        Some(MigrationScript { position: 1, text: "a".to_string() })
    );
    assert_eq!(registry.script(2), None);
}

#[test]
fn registry_fingerprints_go_by_position() {
    let registry = Registry::new(vec!["abc".to_string(), "".to_string(), "abc".to_string()]);
    assert_eq!(
        registry.fingerprints(),
        vec![
            "ba7816bf8f01cfea414140de5dae2223b00361a396177a9cb410ff61f20015ad".to_string(),
            "e3b0c44298fc1c149afbf4c8996fb92427ae41e4649b934ca495991b7852b855".to_string(),
            "ba7816bf8f01cfea414140de5dae2223b00361a396177a9cb410ff61f20015ad".to_string(),
        ]
    );
}

#[test]
fn empty_registry_has_no_fingerprints() {
    let registry = Registry::new(Vec::new());
    assert_eq!(registry.len(), 0);
    assert!(registry.fingerprints().is_empty());
    assert_eq!(registry.script(0), None);
}
