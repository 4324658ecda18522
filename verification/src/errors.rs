//! Error handling.

use vstd::prelude::*;
use vstd::std_specs::convert::{FromSpec, FromSpecImpl};

verus! {

/// Markers for recoverable error kinds.
#[derive(Debug, PartialEq, Eq, Structural, Clone, Copy)]
pub enum ErrorKind {
    /// An error without a more specific kind.
    Generic,
    /// A `sysusers.d` entry of a type that is not known.
    SysusersUnknownType,
}

/// Library errors.
#[derive(Debug)]
pub struct SdError {
    pub(crate) kind: ErrorKind,
    pub(crate) msg: String,
}

impl SdError {
    /// The text that the error carries.
    pub closed spec fn message(&self) -> Seq<char> {
        self.msg@
    }

    /// The kind of the error.
    pub closed spec fn kind(&self) -> ErrorKind {
        self.kind
    }

    /// Makes a generic error that carries the text `msg`.
    pub fn generic(msg: String) -> (e: Self)
        ensures
            e.message() == msg@,
            e.kind() == ErrorKind::Generic,
    {
        Self { kind: ErrorKind::Generic, msg }
    }

    /// Returns the text that the error carries.
    pub fn msg(&self) -> (s: &str)
        ensures
            s@ == self.message(),
    {
        self.msg.as_str()
    }

    /// Makes an error of the kind `kind` that carries the text `msg`.
    pub fn new(kind: ErrorKind, msg: String) -> (e: Self)
        ensures
            e.message() == msg@,
            e.kind() == kind,
    {
        Self { kind, msg }
    }

    /// Returns the kind of the error.
    pub fn error_kind(&self) -> (kind: ErrorKind)
        ensures
            kind == self.kind(),
    {
        self.kind
    }

    /// Returns true if the error has no more specific kind.
    pub fn is_generic(&self) -> (b: bool)
        ensures
            b == (self.kind() == ErrorKind::Generic),
    {
        self.kind == ErrorKind::Generic
    }

    /// Returns the error as it is shown to a reader: the library's prefix, then the text.
    pub fn to_string(&self) -> (s: String)
        ensures
            s@ == "libsystemd error: "@ + self.message(),
    {
        let mut s = String::from_str("libsystemd error: ");
        s.append(self.msg.as_str());
        s
    }
}

impl From<&str> for SdError {
    fn from(arg: &str) -> (e: Self) {
        Self { kind: ErrorKind::Generic, msg: arg.to_owned() }
    }
}

impl FromSpecImpl<&str> for SdError {
    /// A `String` is known by its text alone, so the error made here is stated by
    /// [`SdError::generic`], not as a value.
    open spec fn obeys_from_spec() -> bool {
        false
    }

    closed spec fn from_spec(arg: &str) -> Self {
        arbitrary()
    }
}

impl From<String> for SdError {
    fn from(arg: String) -> (e: Self) {
        Self { kind: ErrorKind::Generic, msg: arg }
    }
}

impl FromSpecImpl<String> for SdError {
    open spec fn obeys_from_spec() -> bool {
        true
    }

    closed spec fn from_spec(arg: String) -> Self {
        SdError { kind: ErrorKind::Generic, msg: arg }
    }
}

/// The error that is made from a text is generic and carries that text.
pub proof fn lemma_from_string(msg: String)
    ensures
        <SdError as FromSpec<String>>::from_spec(msg).kind() == ErrorKind::Generic,
        <SdError as FromSpec<String>>::from_spec(msg).message() == msg@,
{
}

} // verus!
