//! The error model: every driver status other than zero becomes an error.
use vstd::prelude::*;

verus! {

/// What went wrong.
#[derive(Copy, Clone, Debug, PartialEq, Eq, Structural)]
pub enum ErrorKind {
    /// The native module could not be loaded.
    NotFound,
    /// The driver returned this nonzero status.
    Code(i32),
    /// Text returned by the driver is not valid UTF-8.
    Utf8,
}

/// An error of this library.
#[derive(Clone, Debug, PartialEq, Eq, Structural)]
pub struct Error {
    kind: ErrorKind,
}

pub type Result<T> = core::result::Result<T, Error>;

/// The outcome of a driver entry point: zero is success, any other status an error.
pub open spec fn status_outcome(status: i32) -> core::result::Result<(), ErrorKind> {
    if status == 0 {
        Ok(())
    } else {
        Err(ErrorKind::Code(status))
    }
}

impl Error {
    pub closed spec fn spec_kind(&self) -> ErrorKind {
        self.kind
    }

    pub fn kind(&self) -> (r: ErrorKind)
        ensures
            r == self.spec_kind(),
    {
        self.kind
    }

    /// An error that carries the driver status `code`.
    pub fn from_code(code: i32) -> (r: Error)
        ensures
            r.spec_kind() == ErrorKind::Code(code),
    {
        Error { kind: ErrorKind::Code(code) }
    }

    pub fn not_found() -> (r: Error)
        ensures
            r.spec_kind() == ErrorKind::NotFound,
    {
        Error { kind: ErrorKind::NotFound }
    }

    pub fn utf8() -> (r: Error)
        ensures
            r.spec_kind() == ErrorKind::Utf8,
    {
        Error { kind: ErrorKind::Utf8 }
    }

    /// Checks a driver status: `Ok` for zero, else the error that carries it.
    pub fn check(status: i32) -> (r: Result<()>)
        ensures
            match (r, status_outcome(status)) {
                (Ok(()), Ok(())) => true,
                (Err(e), Err(k)) => e.spec_kind() == k,
                _ => false,
            },
    {
        if status != 0 {
            return Err(Error::from_code(status));
        }
        Ok(())
    }

    /// A short description. Vendor codes are not decoded: every code reads
    /// "unknown error".
    pub fn as_str(&self) -> (r: &'static str)
        ensures
            r@ == description_of(self.spec_kind()),
    {
        match self.kind {
            ErrorKind::NotFound => "not found",
            ErrorKind::Code(_) => "unknown error",
            ErrorKind::Utf8 => "utf8 error",
        }
    }

    /// Same as `as_str`.
    pub fn description(&self) -> (r: &'static str)
        ensures
            r@ == description_of(self.spec_kind()),
    {
        self.as_str()
    }

    /// The description as an owned string, for display.
    pub fn to_string(&self) -> (r: String)
        ensures
            r@ == description_of(self.spec_kind()),
    {
        String::from_str(self.as_str())
    }
}

/// The text that describes each kind of error.
pub open spec fn description_of(k: ErrorKind) -> Seq<char> {
    match k {
        ErrorKind::NotFound => "not found"@,
        ErrorKind::Code(_) => "unknown error"@,
        ErrorKind::Utf8 => "utf8 error"@,
    }
}

#[verifier::external_type_specification]
#[verifier::external_body]
pub struct ExUtf8Error(core::str::Utf8Error);

impl From<core::str::Utf8Error> for Error {
    fn from(err: core::str::Utf8Error) -> (r: Error)
        ensures
            r.spec_kind() == ErrorKind::Utf8,
    {
        Error { kind: ErrorKind::Utf8 }
    }
}

impl vstd::std_specs::convert::FromSpecImpl<core::str::Utf8Error> for Error {
    open spec fn obeys_from_spec() -> bool {
        true
    }

    closed spec fn from_spec(err: core::str::Utf8Error) -> Error {
        Error { kind: ErrorKind::Utf8 }
    }
}

} // verus!
