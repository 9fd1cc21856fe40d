//! The closed set of failure categories.

use vstd::prelude::*;

verus! {

/// The category of a failure. Callers branch on it; the set is fixed.
#[derive(Clone, Copy, Debug, PartialEq, Eq, Hash, PartialOrd, Ord, Structural)]
pub enum ErrorKind {
    /// The text has no section named `configuration`.
    ConfigNotFound,
    /// The `configuration` section has no key `url`.
    KeyNotFound,
    /// The text is not well-formed INI.
    Parse,
    /// The value of `url` is not an absolute URL.
    UrlError,
}

/// The short description of each kind, as a sequence of characters.
pub open spec fn kind_text(kind: ErrorKind) -> Seq<char> {
    match kind {
        ErrorKind::ConfigNotFound => "'configuration' section not found"@,
        ErrorKind::KeyNotFound => "Key not found"@,
        ErrorKind::Parse => "INI parse error"@,
        ErrorKind::UrlError => "URL parse error"@,
    }
}

impl ErrorKind {
    /// Whether errors of this kind wrap the failure of a parser.
    pub open spec fn spec_has_cause(self) -> bool {
        self == ErrorKind::Parse || self == ErrorKind::UrlError
    }

    /// Whether errors of this kind wrap the failure of a parser. The two
    /// "not found" kinds carry the file's path instead.
    #[verifier::when_used_as_spec(spec_has_cause)]
    pub fn has_cause(self) -> (r: bool)
        ensures
            r == self.spec_has_cause(),
    {
        match self {
            ErrorKind::Parse => true,
            ErrorKind::UrlError => true,
            ErrorKind::ConfigNotFound => false,
            ErrorKind::KeyNotFound => false,
        }
    }

    /// The short description of this kind.
    pub fn as_str(&self) -> (r: &'static str)
        ensures
            r@ == kind_text(*self),
    {
        match *self {
            ErrorKind::ConfigNotFound => "'configuration' section not found",
            ErrorKind::KeyNotFound => "Key not found",
            ErrorKind::Parse => "INI parse error",
            ErrorKind::UrlError => "URL parse error",
        }
    }
}

} // verus!
