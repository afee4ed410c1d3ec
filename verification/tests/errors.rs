use fileops::greeting::greet;
use fileops::models::{Error, ErrorKind};

#[test]
fn io_message_is_transparent() {
    let e = Error::Io(String::from("permission denied"));
    assert_eq!(e.message(), "permission denied");
}

#[test]
fn utf8_message_is_prefixed() {
    let e = Error::Utf8(String::from("bad bytes"));
    assert_eq!(e.message(), "failed to parse as string: bad bytes");
}

#[test]
fn invalid_path_message_is_prefixed() {
    let e = Error::InvalidPath(String::from("Path does not exist: /x"));
    assert_eq!(e.message(), "invalid path: Path does not exist: /x");
}

#[test]
fn io_wire_form() {
    let k = Error::Io(String::from("disk full")).to_kind();
    assert!(matches!(k, ErrorKind::Io(_)));
    assert_eq!(k.tag(), "io");
    assert_eq!(k.message(), "disk full");
}

#[test]
fn utf8_wire_form() {
    let k = Error::Utf8(String::from("bad")).to_kind();
    assert!(matches!(k, ErrorKind::Utf8(_)));
    assert_eq!(k.tag(), "utf8");
    assert_eq!(k.message(), "failed to parse as string: bad");
}

#[test]
fn invalid_path_wire_form() {
    let k = Error::InvalidPath(String::from("/x")).to_kind();
    assert!(matches!(k, ErrorKind::InvalidPath(_)));
    assert_eq!(k.tag(), "invalidPath");
    assert_eq!(k.message(), "invalid path: /x");
}

#[test]
fn greet_formats_the_greeting() {
    assert_eq!(greet("World"), "Hello, World! You've been greeted from Rust!");
}
