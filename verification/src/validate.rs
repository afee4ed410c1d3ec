use vstd::prelude::*;

use crate::models::Error;

verus! {

/// True when the path's text ends with the separator character.
pub open spec fn ends_with_separator(p: Seq<char>) -> bool {
    p.len() > 0 && p[p.len() - 1] == '/'
}

/// The message reported for a path that does not exist.
pub open spec fn missing_message(p: Seq<char>) -> Seq<char> {
    "Path does not exist: "@ + p
}

/// The message reported when canonicalization fails, wrapping the OS error's
/// own text.
pub open spec fn canonicalize_message(p: Seq<char>, os: Seq<char>) -> Seq<char> {
    "Invalid path '"@ + p + "': "@ + os
}

/// What validation decides, given the path's text, whether the filesystem
/// reports the path as existing, and what canonicalization returned: a
/// missing path is rejected unless written with a trailing separator, a
/// failed canonicalization is rejected with the OS error's text, and
/// otherwise the canonical path is the result.
pub open spec fn validation_outcome(
    p: Seq<char>,
    present: bool,
    canonical: Result<Seq<char>, Seq<char>>,
) -> Result<Seq<char>, Seq<char>> {
    if !present && !ends_with_separator(p) {
        Err(missing_message(p))
    } else {
        match canonical {
            Ok(c) => Ok(c),
            Err(os) => Err(canonicalize_message(p, os)),
        }
    }
}

/// The view of a canonicalization result as plain character sequences.
pub open spec fn canonical_view(c: Result<String, String>) -> Result<Seq<char>, Seq<char>> {
    match c {
        Ok(s) => Ok(s@),
        Err(s) => Err(s@),
    }
}

/// A validation result matches a decided outcome: the same success or
/// failure, carrying the same canonical path or the same message, and every
/// failure an invalid-path error.
pub open spec fn outcome_matches(
    r: Result<String, Error>,
    o: Result<Seq<char>, Seq<char>>,
) -> bool {
    match (r, o) {
        (Ok(s), Ok(c)) => s@ == c,
        (Err(Error::InvalidPath(m)), Err(msg)) => m@ == msg,
        _ => false,
    }
}

/// A path the filesystem does not report as existing, and whose text does
/// not end in a separator, is always rejected as an invalid path naming it,
/// whatever canonicalization would have returned.
pub proof fn lemma_missing_path_rejected(p: Seq<char>, canonical: Result<Seq<char>, Seq<char>>)
    requires
        !ends_with_separator(p),
    ensures
        validation_outcome(p, false, canonical) == Err::<Seq<char>, Seq<char>>(missing_message(p)),
{
}

/// A path the filesystem reports as existing validates to exactly the
/// canonical absolute form the OS resolves it to.
pub proof fn lemma_existing_path_canonicalized(p: Seq<char>, c: Seq<char>)
    ensures
        validation_outcome(p, true, Ok(c)) == Ok::<Seq<char>, Seq<char>>(c),
{
}

/// Decides whether the path's text ends with the separator character.
fn ends_with_separator_exec(p: &str) -> (r: bool)
    ensures
        r == ends_with_separator(p@),
{
    let n = p.unicode_len();
    if n == 0 {
        false
    } else {
        p.get_char(n - 1) == '/'
    }
}

/// Relies on `std::path::Path::exists`: asks the filesystem whether the path
/// exists at this moment. Nothing is promised of the answer, which depends
/// on the state of the disk.
#[verifier::external_body]
fn path_exists(p: &str) -> bool {
    std::path::Path::new(p).exists()
}

/// Relies on `std::path::Path::canonicalize`: resolves symlinks and `.`/`..`
/// components against the filesystem and returns the canonical absolute
/// path, or the OS error's text. Nothing is promised of the answer, which
/// depends on the state of the disk.
#[verifier::external_body]
fn canonicalize_path(p: &str) -> Result<String, String> {
    match std::path::Path::new(p).canonicalize() {
        Ok(c) => Ok(c.to_string_lossy().into_owned()),
        Err(e) => Err(e.to_string()),
    }
}

/// Turns the filesystem's two answers for a path into the validation
/// result, exactly as [`validation_outcome`] decides it.
pub fn validation_decision(
    path: &str,
    present: bool,
    canonical: Result<String, String>,
) -> (r: Result<String, Error>)
    ensures
        outcome_matches(r, validation_outcome(path@, present, canonical_view(canonical))),
{
    if !present && !ends_with_separator_exec(path) {
        let mut m = String::from_str("Path does not exist: ");
        m.append(path);
        Err(Error::InvalidPath(m))
    } else {
        match canonical {
            Ok(c) => Ok(c),
            Err(os) => {
                let mut m = String::from_str("Invalid path '");
                m.append(path);
                m.append("': ");
                m.append(os.as_str());
                Err(Error::InvalidPath(m))
            },
        }
    }
}

/// Validates a caller-supplied path: a path the filesystem does not report
/// as existing is rejected unless its text ends with a separator (so that a
/// parent may be validated while a not-yet-created child name is appended
/// later), and otherwise the path is resolved to its canonical absolute
/// form, following symlinks and collapsing `.` and `..`. Every failure is
/// an invalid-path error, and the result is the decided outcome of the
/// answers the filesystem gave at call time.
pub fn validate_path(path: &str) -> (r: Result<String, Error>)
    ensures
        r matches Err(e) ==> e matches Error::InvalidPath(_),
        exists|present: bool, canonical: Result<Seq<char>, Seq<char>>|
            outcome_matches(r, #[trigger] validation_outcome(path@, present, canonical)),
{
    let present = path_exists(path);
    if !present && !ends_with_separator_exec(path) {
        let mut m = String::from_str("Path does not exist: ");
        m.append(path);
        let r: Result<String, Error> = Err(Error::InvalidPath(m));
        proof {
            assert(outcome_matches(
                r,
                validation_outcome(path@, false, Err(Seq::<char>::empty())),
            ));
        }
        r
    } else {
        let canonical = canonicalize_path(path);
        validation_decision(path, present, canonical)
    }
}

/// Where a new child goes under a parent path: an absolute child name
/// stands alone; otherwise the name is appended to the parent with a
/// separator between them, none doubled.
pub open spec fn joined_path(parent: Seq<char>, name: Seq<char>) -> Seq<char> {
    if name.len() > 0 && name[0] == '/' {
        name
    } else if parent.len() == 0 {
        name
    } else if parent[parent.len() - 1] == '/' {
        parent + name
    } else {
        parent + "/"@ + name
    }
}

/// Joins a parent path and a child name, as [`joined_path`] lays it down.
pub fn join_path(parent: &str, name: &str) -> (r: String)
    ensures
        r@ == joined_path(parent@, name@),
{
    let name_len = name.unicode_len();
    if name_len > 0 && name.get_char(0) == '/' {
        return String::from_str(name);
    }
    let parent_len = parent.unicode_len();
    if parent_len == 0 {
        return String::from_str(name);
    }
    let mut s = String::from_str(parent);
    if parent.get_char(parent_len - 1) != '/' {
        s.append("/");
    }
    s.append(name);
    s
}

} // verus!
