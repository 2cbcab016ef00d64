//! Errors raised within the `dr` ecosystem.
use crate::config::Defaults;
use vstd::prelude::*;

verus! {

/// What went wrong.
#[derive(Clone, Copy, Debug, PartialEq, Eq, Structural)]
pub enum ErrorKind {
    /// The environment variable of this slot was needed and has no text.
    Environment(Defaults),
    /// The profile store could not be read.
    File,
    /// The profile store could not be decoded.
    Parse,
    /// The profile store holds no profile of the name asked for.
    NotFound,
    /// A host is not a URL.
    UrlParse,
    /// A host that was taken to accept a port does not.
    Invariant,
    /// A bare message, of none of the kinds above: what `Error::from` makes of
    /// a text.
    Other,
}

/// An error's kind and message, as contracts see them.
pub struct ErrorView {
    pub kind: ErrorKind,
    pub message: Seq<char>,
}

/// The one error type of the crate: a kind and a message for people.
#[derive(Debug)]
pub struct Error {
    kind: ErrorKind,
    message: String,
}

impl View for Error {
    type V = ErrorView;

    closed spec fn view(&self) -> ErrorView {
        ErrorView { kind: self.kind, message: self.message@ }
    }
}

/// The message of every error about a variable that is not set.
pub open spec fn unset_text() -> Seq<char> {
    "environment variable not found"@
}

/// The message of every error about a host that takes no port.
pub open spec fn refused_port_text() -> Seq<char> {
    "Should have set the port"@
}

impl Error {
    /// The error of the given kind with the given message.
    pub closed spec fn spec_new(kind: ErrorKind, message: String) -> Self {
        Error { kind, message }
    }

    /// An error of the given kind. The message is kept as it is.
    #[verifier::when_used_as_spec(spec_new)]
    pub fn new(kind: ErrorKind, message: String) -> (error: Self)
        ensures
            error == Self::spec_new(kind, message),
            error@ == (ErrorView { kind, message: message@ }),
    {
        Error { kind, message }
    }

    /// The error for a slot whose variable is needed and not set.
    pub fn unset(slot: Defaults) -> (error: Self)
        ensures
            error@ == (ErrorView { kind: ErrorKind::Environment(slot), message: unset_text() }),
    {
        Error {
            kind: ErrorKind::Environment(slot),
            message: "environment variable not found".to_owned(),
        }
    }

    /// The error for a host that was given a port and takes none.
    pub fn refused_port() -> (error: Self)
        ensures
            error@ == (ErrorView { kind: ErrorKind::Invariant, message: refused_port_text() }),
    {
        Error { kind: ErrorKind::Invariant, message: "Should have set the port".to_owned() }
    }

    pub fn kind(&self) -> (kind: ErrorKind)
        ensures
            kind == self@.kind,
    {
        self.kind
    }

    pub fn message(&self) -> (message: &str)
        ensures
            message@ == self@.message,
    {
        self.message.as_str()
    }

    /// The error as shown to people: its message.
    pub fn to_string(&self) -> (text: String)
        ensures
            text@ == self@.message,
    {
        self.message.clone()
    }
}

impl<'a> From<&'a str> for Error {
    /// The error whose message is `value`, unchanged.
    fn from(value: &'a str) -> (error: Self)
        ensures
            error@ == (ErrorView { kind: ErrorKind::Other, message: value@ }),
    {
        Error { kind: ErrorKind::Other, message: value.to_owned() }
    }
}

/// A borrowed text names no `String` in specifications, so the conversion
/// from one is stated by `from` itself, over views.
impl<'a> vstd::std_specs::convert::FromSpecImpl<&'a str> for Error {
    open spec fn obeys_from_spec() -> bool {
        false
    }

    open spec fn from_spec(value: &'a str) -> Self {
        arbitrary()
    }
}

impl From<String> for Error {
    /// The error whose message is `value`, unchanged.
    fn from(value: String) -> (error: Self)
        ensures
            error == Error::new(ErrorKind::Other, value),
            error@ == (ErrorView { kind: ErrorKind::Other, message: value@ }),
    {
        Error { kind: ErrorKind::Other, message: value }
    }
}

impl vstd::std_specs::convert::FromSpecImpl<String> for Error {
    open spec fn obeys_from_spec() -> bool {
        true
    }

    open spec fn from_spec(value: String) -> Self {
        Error::new(ErrorKind::Other, value)
    }
}

} // verus!
