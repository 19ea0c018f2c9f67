//! Errors, and the few classes of them that the library tells apart.

use vstd::prelude::*;
use vstd::slice::slice_to_vec;

verus! {

/// The class of an error. Creation is tried again after the first two and
/// after no other.
#[derive(Clone, Copy, Debug, PartialEq, Eq, Structural)]
pub enum ErrorKind {
    /// The name is taken.
    AlreadyExists,
    /// The address is taken: what binding a socket to a taken name reports.
    AddrInUse,
    /// There is no such entry.
    NotFound,
    /// A name or path that cannot be used.
    InvalidInput,
    /// Anything else.
    Other,
}

/// Where an error came from.
#[derive(Clone, Copy, Debug, PartialEq, Eq, Structural)]
pub enum Origin {
    /// The operating system reported it, under this error number.
    Os(i32),
    /// It was reported without an error number.
    Unnumbered,
    /// Every candidate name tried was taken.
    Exhausted,
    /// A path holds a NUL byte.
    NulInPath,
    /// The prefix and suffix do not make a file name.
    BadFileName,
    /// The path of a temporary file now names another file.
    Replaced,
    /// A directory that was to be removed alone still has entries.
    NotEmpty,
    /// A listing names an entry before a directory that the entry lies in.
    OutOfOrder,
    /// The operating system gave no random bytes.
    NoEntropy,
    /// A seek to before the first byte, or past what a position can hold.
    BadSeek,
}

/// An error, with the path it arose at where one is known.
#[derive(Clone, Debug, PartialEq, Eq)]
pub struct Error {
    pub kind: ErrorKind,
    pub origin: Origin,
    pub path: Option<Vec<u8>>,
}

/// The view of an error: its path as a sequence of bytes.
pub struct ErrorView {
    pub kind: ErrorKind,
    pub origin: Origin,
    pub path: Option<Seq<u8>>,
}

impl View for Error {
    type V = ErrorView;

    open spec fn view(&self) -> ErrorView {
        ErrorView {
            kind: self.kind,
            origin: self.origin,
            path: match self.path {
                Some(p) => Some(p@),
                None => None,
            },
        }
    }
}

/// The error for the operating system giving no random bytes.
pub open spec fn no_entropy() -> ErrorView {
    ErrorView { kind: ErrorKind::Other, origin: Origin::NoEntropy, path: None }
}

/// The two classes after which another name is tried.
pub open spec fn is_collision(kind: ErrorKind) -> bool {
    kind == ErrorKind::AlreadyExists || kind == ErrorKind::AddrInUse
}

/// An error of the standard library. What it holds is hidden.
#[verifier::external_type_specification]
#[verifier::external_body]
pub struct ExIoError(std::io::Error);

/// `std::io::Error::from_raw_os_error` makes the error that stands for an
/// error number of the operating system. Nothing is claimed of it.
pub assume_specification[ std::io::Error::from_raw_os_error ](code: i32) -> (e: std::io::Error);

/// The class of an error of the standard library, as far as this library
/// tells classes apart.
///
/// Wraps `std::io::Error::kind`. The class of an error number differs
/// between platforms, so nothing is claimed of the result.
#[verifier::external_body]
fn class_of(e: &std::io::Error) -> (kind: ErrorKind) {
    match e.kind() {
        std::io::ErrorKind::AlreadyExists => ErrorKind::AlreadyExists,
        std::io::ErrorKind::AddrInUse => ErrorKind::AddrInUse,
        std::io::ErrorKind::NotFound => ErrorKind::NotFound,
        std::io::ErrorKind::InvalidInput => ErrorKind::InvalidInput,
        _ => ErrorKind::Other,
    }
}

impl Error {
    /// An error of the library's own making, not yet tied to a path.
    pub fn new(kind: ErrorKind, origin: Origin) -> (e: Error)
        ensures
            e@ == (ErrorView { kind, origin, path: None }),
    {
        Error { kind, origin, path: None }
    }

    /// The error that stands for all candidate names being taken.
    pub fn exhausted() -> (e: Error)
        ensures
            e@ == (ErrorView { kind: ErrorKind::AlreadyExists, origin: Origin::Exhausted, path: None }),
    {
        Error::new(ErrorKind::AlreadyExists, Origin::Exhausted)
    }

    /// The error that stands for a temporary file whose path now names
    /// another file.
    pub fn replaced() -> (e: Error)
        ensures
            e@ == (ErrorView { kind: ErrorKind::NotFound, origin: Origin::Replaced, path: None }),
    {
        Error::new(ErrorKind::NotFound, Origin::Replaced)
    }

    /// The error that stands for the operating system giving no random
    /// bytes.
    pub fn no_entropy() -> (e: Error)
        ensures
            e@ == no_entropy(),
    {
        Error::new(ErrorKind::Other, Origin::NoEntropy)
    }

    /// An error of the standard library as this library holds it. `code` is
    /// the error number that the error carries, if it carries one. The class
    /// is the one that the standard library gives the error.
    pub fn from_io(e: &std::io::Error, code: Option<i32>) -> (error: Error)
        ensures
            error.origin == match code {
                Some(number) => Origin::Os(number),
                None => Origin::Unnumbered,
            },
            error.path is None,
    {
        let origin = match code {
            Some(number) => Origin::Os(number),
            None => Origin::Unnumbered,
        };
        Error { kind: class_of(e), origin, path: None }
    }

    /// An error that the operating system reported under the number `code`.
    /// Its class is the one the standard library gives that number on this
    /// platform.
    pub fn from_raw_os_error(code: i32) -> (e: Error)
        ensures
            e.origin == Origin::Os(code),
            e.path is None,
    {
        let e = std::io::Error::from_raw_os_error(code);
        Error::from_io(&e, Some(code))
    }

    /// An error that the operating system reported under the number `code`
    /// and that is known to be of class `kind`.
    pub fn os(kind: ErrorKind, code: i32) -> (e: Error)
        ensures
            e@ == (ErrorView { kind, origin: Origin::Os(code), path: None }),
    {
        Error { kind, origin: Origin::Os(code), path: None }
    }

    /// The same error, now tied to `path`. Class and origin are kept; a path
    /// it was tied to before is replaced.
    pub fn with_path(self, path: &[u8]) -> (e: Error)
        ensures
            e@ == (ErrorView { kind: self.kind, origin: self.origin, path: Some(path@) }),
    {
        Error { kind: self.kind, origin: self.origin, path: Some(slice_to_vec(path)) }
    }

    /// The class of the error.
    pub fn kind(&self) -> (kind: ErrorKind)
        ensures
            kind == self.kind,
    {
        self.kind
    }

    /// Tells whether another name is to be tried after this error.
    pub fn is_collision(&self) -> (collision: bool)
        ensures
            collision == is_collision(self.kind),
    {
        match self.kind {
            ErrorKind::AlreadyExists => true,
            ErrorKind::AddrInUse => true,
            _ => false,
        }
    }

    /// A short account of the error, without its path.
    pub fn description(&self) -> (text: &'static str)
        ensures
            text@ == description_of(self.origin),
    {
        match self.origin {
            Origin::Os(_) => "operating system error",
            Origin::Unnumbered => "error without a number",
            Origin::Exhausted => "too many temporary files exist",
            Origin::NulInPath => "path contained a null",
            Origin::BadFileName => "prefix and suffix do not form a file name",
            Origin::Replaced => "original tempfile has been replaced",
            Origin::NotEmpty => "directory not empty",
            Origin::OutOfOrder => "listing names an entry before its directory",
            Origin::NoEntropy => "the system gave no random bytes",
            Origin::BadSeek => "invalid seek to a negative or overflowing position",
        }
    }
}

/// The text that [`Error::description`] gives for each origin.
pub open spec fn description_of(origin: Origin) -> Seq<char> {
    match origin {
        Origin::Os(_) => "operating system error"@,
        Origin::Unnumbered => "error without a number"@,
        Origin::Exhausted => "too many temporary files exist"@,
        Origin::NulInPath => "path contained a null"@,
        Origin::BadFileName => "prefix and suffix do not form a file name"@,
        Origin::Replaced => "original tempfile has been replaced"@,
        Origin::NotEmpty => "directory not empty"@,
        Origin::OutOfOrder => "listing names an entry before its directory"@,
        Origin::NoEntropy => "the system gave no random bytes"@,
        Origin::BadSeek => "invalid seek to a negative or overflowing position"@,
    }
}

} // verus!
