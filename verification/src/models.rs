use vstd::prelude::*;

verus! {

/// Whether a directory entry is itself a directory or a plain file.
#[derive(Clone, Copy, PartialEq, Eq, Structural, Debug)]
pub enum FileKind {
    Directory,
    File,
}

/// One entry of a directory listing: the entry's base name, its kind, and
/// the full path reported by the filesystem for it.
#[derive(Debug)]
pub struct FileInfo {
    pub name: String,
    pub kind: FileKind,
    pub path: String,
}

/// A failed operation: an OS-level failure, bytes that were not valid text
/// where text was required, or a path that did not pass validation. Each
/// variant carries the message raised at the point of failure.
#[derive(Debug)]
pub enum Error {
    Io(String),
    Utf8(String),
    InvalidPath(String),
}

/// The wire form of an error: one tag per error variant, each holding the
/// full human-readable message built by [`Error::message`].
#[derive(Debug)]
pub enum ErrorKind {
    Io(String),
    Utf8(String),
    InvalidPath(String),
}

/// The full human-readable text of an error, as shown to the caller.
pub open spec fn message_of(e: Error) -> Seq<char> {
    match e {
        Error::Io(m) => m@,
        Error::Utf8(m) => "failed to parse as string: "@ + m@,
        Error::InvalidPath(m) => "invalid path: "@ + m@,
    }
}

/// The message a wire error carries.
pub open spec fn wire_message_of(k: ErrorKind) -> Seq<char> {
    match k {
        ErrorKind::Io(m) => m@,
        ErrorKind::Utf8(m) => m@,
        ErrorKind::InvalidPath(m) => m@,
    }
}

/// An error and a wire error classify the failure the same way.
pub open spec fn same_kind(e: Error, k: ErrorKind) -> bool {
    match (e, k) {
        (Error::Io(_), ErrorKind::Io(_)) => true,
        (Error::Utf8(_), ErrorKind::Utf8(_)) => true,
        (Error::InvalidPath(_), ErrorKind::InvalidPath(_)) => true,
        _ => false,
    }
}

/// The tag string under which a wire error travels across the boundary.
pub open spec fn tag_of(k: ErrorKind) -> Seq<char> {
    match k {
        ErrorKind::Io(_) => "io"@,
        ErrorKind::Utf8(_) => "utf8"@,
        ErrorKind::InvalidPath(_) => "invalidPath"@,
    }
}

impl Error {
    /// The full human-readable message for this error.
    pub fn message(&self) -> (r: String)
        ensures
            r@ == message_of(*self),
    {
        match self {
            Error::Io(m) => m.clone(),
            Error::Utf8(m) => {
                let mut s = String::from_str("failed to parse as string: ");
                s.append(m.as_str());
                s
            },
            Error::InvalidPath(m) => {
                let mut s = String::from_str("invalid path: ");
                s.append(m.as_str());
                s
            },
        }
    }

    /// Classifies this error for the boundary: the wire variant matches the
    /// error's own variant and carries the full message.
    pub fn to_kind(&self) -> (r: ErrorKind)
        ensures
            same_kind(*self, r),
            wire_message_of(r) == message_of(*self),
    {
        let message = self.message();
        match self {
            Error::Io(_) => ErrorKind::Io(message),
            Error::Utf8(_) => ErrorKind::Utf8(message),
            Error::InvalidPath(_) => ErrorKind::InvalidPath(message),
        }
    }
}

impl ErrorKind {
    /// The tag under which this wire error is serialized.
    pub fn tag(&self) -> (r: String)
        ensures
            r@ == tag_of(*self),
    {
        match self {
            ErrorKind::Io(_) => String::from_str("io"),
            ErrorKind::Utf8(_) => String::from_str("utf8"),
            ErrorKind::InvalidPath(_) => String::from_str("invalidPath"),
        }
    }

    /// The message this wire error carries.
    pub fn message(&self) -> (r: String)
        ensures
            r@ == wire_message_of(*self),
    {
        match self {
            ErrorKind::Io(m) => m.clone(),
            ErrorKind::Utf8(m) => m.clone(),
            ErrorKind::InvalidPath(m) => m.clone(),
        }
    }
}

} // verus!
