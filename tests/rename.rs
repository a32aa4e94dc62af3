use shredder::error::ShredError;
use shredder::rename::{obfuscated_name, renamed_file_name};

fn is_alnum(s: &str) -> bool {
    s.chars().all(|c| c.is_ascii_alphanumeric())
}

#[test]
fn name_keeps_character_count() {
    let n = obfuscated_name("secret.txt").unwrap();
    assert_eq!(n.chars().count(), 10);
    assert!(is_alnum(&n));
}

#[test]
fn name_counts_characters_not_bytes() {
    let n = obfuscated_name("héllo.txt").unwrap();
    assert_eq!(n.chars().count(), 9);
    assert_eq!(n.len(), 9);
    assert!(is_alnum(&n));
}

#[test]
fn empty_name_stays_empty() {
    assert_eq!(obfuscated_name("").unwrap(), "");
}

#[test]
fn name_is_not_the_original() {
    let original = "abcdefghijklmnopqrstuvwxyz0123456789";
    let n = obfuscated_name(original).unwrap();
    assert_eq!(n.chars().count(), original.chars().count());
    assert_ne!(n, original);
}

#[test]
fn path_without_file_name_is_refused() {
    match renamed_file_name("/", None) {
        Err(ShredError::InvalidPath { path }) => assert_eq!(path, "/"),
        other => panic!("unexpected {:?}", other),
    }
}

#[test]
fn path_with_file_name_gets_new_name() {
    let r = renamed_file_name("/tmp/data.bin", Some("data.bin")).unwrap();
    assert_eq!(r.chars().count(), 8);
    assert!(is_alnum(&r));
}
