use image_compressor::gate::{chars_of, contains_chars, is_authorized_domain};

fn contains(text: &str, pattern: &str) -> bool {
    contains_chars(&chars_of(text), &chars_of(pattern))
}

#[test]
fn chars_of_keeps_every_character() {
    assert_eq!(chars_of(""), Vec::<char>::new());
    assert_eq!(chars_of("a.b"), vec!['a', '.', 'b']);
    assert_eq!(chars_of("h\u{e9}llo"), vec!['h', '\u{e9}', 'l', 'l', 'o']);
}

#[test]
fn contains_finds_a_pattern_anywhere() {
    assert!(contains("localhost", "localhost"));
    assert!(contains("xlocalhost", "localhost"));
    assert!(contains("localhostx", "localhost"));
    assert!(contains("aab", "ab"));
    assert!(contains("anything", ""));
    assert!(contains("", ""));
}

#[test]
fn contains_rejects_what_is_not_there() {
    assert!(!contains("localhos", "localhost"));
    assert!(!contains("", "a"));
    assert!(!contains("local-host", "localhost"));
    assert!(!contains("abab", "abb"));
    assert!(!contains("LOCALHOST", "localhost"));
}

#[test]
fn allowed_hosts_pass() {
    assert!(is_authorized_domain("localhost"));
    assert!(is_authorized_domain("127.0.0.1"));
    assert!(is_authorized_domain("my-site.pages.dev"));
    assert!(is_authorized_domain("my-site.netlify.app"));
}

#[test]
fn other_hosts_are_denied() {
    assert!(!is_authorized_domain(""));
    assert!(!is_authorized_domain("example.com"));
    assert!(!is_authorized_domain("127.0.0.2"));
    assert!(!is_authorized_domain("pages.de"));
    assert!(!is_authorized_domain("netlify.com"));
    assert!(!is_authorized_domain("localhos"));
}

#[test]
fn a_fragment_anywhere_in_the_name_is_enough() {
    assert!(is_authorized_domain("pages.dev.attacker.example"));
    assert!(is_authorized_domain("notlocalhost.example"));
    assert!(is_authorized_domain("x127.0.0.10"));
}
