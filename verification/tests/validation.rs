use fileops::models::Error;
use fileops::validate::{join_path, validate_path, validation_decision};

#[test]
fn missing_path_is_invalid() {
    let r = validate_path("/no/such/path/anywhere");
    match r {
        Err(Error::InvalidPath(m)) => {
            assert_eq!(m, "Path does not exist: /no/such/path/anywhere");
        }
        _ => panic!("expected an invalid-path error"),
    }
}

#[test]
fn existing_path_canonicalizes() {
    let r = validate_path("/");
    assert_eq!(r.unwrap(), "/");
}

#[test]
fn relative_segments_collapse() {
    let r = validate_path("/..");
    assert_eq!(r.unwrap(), "/");
}

#[test]
fn trailing_separator_skips_existence_check() {
    let r = validate_path("/no/such/dir/");
    match r {
        Err(Error::InvalidPath(m)) => {
            assert!(m.starts_with("Invalid path '/no/such/dir/': "));
        }
        _ => panic!("expected an invalid-path error from canonicalization"),
    }
}

#[test]
fn decision_rejects_missing_path() {
    let r = validation_decision("/a", false, Ok(String::from("/a")));
    match r {
        Err(Error::InvalidPath(m)) => assert_eq!(m, "Path does not exist: /a"),
        _ => panic!("expected an invalid-path error"),
    }
}

#[test]
fn decision_returns_canonical_form() {
    let r = validation_decision("/a/../b", true, Ok(String::from("/b")));
    assert_eq!(r.unwrap(), "/b");
}

#[test]
fn decision_wraps_os_error() {
    let r = validation_decision("/a", true, Err(String::from("boom")));
    match r {
        Err(Error::InvalidPath(m)) => assert_eq!(m, "Invalid path '/a': boom"),
        _ => panic!("expected an invalid-path error"),
    }
}

#[test]
fn decision_exempts_trailing_separator() {
    let r = validation_decision("/a/", false, Ok(String::from("/a")));
    assert_eq!(r.unwrap(), "/a");
}

#[test]
fn join_appends_with_separator() {
    assert_eq!(join_path("/tmp/root", "sub"), "/tmp/root/sub");
}

#[test]
fn join_keeps_existing_separator() {
    assert_eq!(join_path("/a/", "b"), "/a/b");
}

#[test]
fn join_with_empty_parent_is_the_name() {
    assert_eq!(join_path("", "x"), "x");
}

#[test]
fn join_with_absolute_name_is_the_name() {
    assert_eq!(join_path("/a", "/abs"), "/abs");
}
