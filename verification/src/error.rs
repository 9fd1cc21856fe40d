//! The uniform error of the library: a kind to branch on, the context of the
//! failure, and the parser's own error where a parser failed.

use crate::bindings::{
    ini_error_string, ini_error_text, quoted_string, quoted_text, url_error_string,
    url_error_text,
};
use crate::kind::{kind_text, ErrorKind};
use vstd::prelude::*;
use vstd::std_specs::convert::FromSpecImpl;
use vstd::string::*;

verus! {

/// The failure of an outside parser, kept whole inside the error that wraps
/// it. The variant tells which parser failed.
#[derive(Debug)]
pub enum Cause {
    /// The INI parser met a syntax error.
    Syntax(ini::ini::ParseError),
    /// The URL parser refused the string.
    Url(url::ParseError),
}

/// The text that a cause displays: that of the parser's error.
pub open spec fn cause_text(cause: Cause) -> Seq<char> {
    match cause {
        Cause::Syntax(error) => ini_error_text(error),
        Cause::Url(error) => url_error_text(error),
    }
}

impl Cause {
    /// The parser's own message.
    pub fn to_string(&self) -> (r: String)
        ensures
            r@ == cause_text(*self),
    {
        match self {
            Cause::Syntax(error) => ini_error_string(error),
            Cause::Url(error) => url_error_string(error),
        }
    }
}

/// What an error is, as a mathematical value. Each kind has its own shape:
/// the two "not found" kinds hold the file's path and no cause, the two
/// parse kinds hold a cause and nothing else.
pub enum Failure {
    /// No section `configuration` in the file at `path`.
    NoSection { path: Seq<char> },
    /// No key `key` in the section `configuration` of the file at `path`.
    NoKey { path: Seq<char>, key: Seq<char> },
    /// The INI text did not parse.
    Syntax { cause: Cause },
    /// The value of the key did not parse as a URL.
    BadUrl { cause: Cause },
}

impl Failure {
    /// The kind of the failure.
    pub open spec fn kind(self) -> ErrorKind {
        match self {
            Failure::NoSection { .. } => ErrorKind::ConfigNotFound,
            Failure::NoKey { .. } => ErrorKind::KeyNotFound,
            Failure::Syntax { .. } => ErrorKind::Parse,
            Failure::BadUrl { .. } => ErrorKind::UrlError,
        }
    }

    /// The wrapped parser error, if the failure has one.
    pub open spec fn cause(self) -> Option<Cause> {
        match self {
            Failure::Syntax { cause } => Some(cause),
            Failure::BadUrl { cause } => Some(cause),
            _ => None,
        }
    }

    /// The path of the file, for the two "not found" kinds.
    pub open spec fn path(self) -> Option<Seq<char>> {
        match self {
            Failure::NoSection { path } => Some(path),
            Failure::NoKey { path, .. } => Some(path),
            _ => None,
        }
    }

    /// The name of the missing key.
    pub open spec fn key(self) -> Option<Seq<char>> {
        match self {
            Failure::NoKey { key, .. } => Some(key),
            _ => None,
        }
    }

    /// The same failure around another cause. A failure without a cause
    /// stays as it is.
    pub open spec fn with_cause(self, cause: Cause) -> Failure {
        match self {
            Failure::Syntax { .. } => Failure::Syntax { cause },
            Failure::BadUrl { .. } => Failure::BadUrl { cause },
            other => other,
        }
    }

    /// The text that the failure displays. It starts with words that are
    /// fixed for each kind; the path is written between double quotes.
    pub open spec fn text(self) -> Seq<char> {
        match self {
            Failure::NoSection { path } => kind_text(ErrorKind::ConfigNotFound) + " on file: "@
                + quoted_text(path),
            Failure::NoKey { path, key } => "Key '"@ + key + "' not found on file: "@
                + quoted_text(path),
            Failure::Syntax { cause } => kind_text(ErrorKind::Parse) + ": "@ + cause_text(cause),
            Failure::BadUrl { cause } => kind_text(ErrorKind::UrlError) + ": "@ + cause_text(
                cause,
            ),
        }
    }
}

/// The failure that wraps `cause` under one of the two parse kinds.
pub open spec fn wrapped(kind: ErrorKind, cause: Cause) -> Failure {
    if kind == ErrorKind::Parse {
        Failure::Syntax { cause }
    } else {
        Failure::BadUrl { cause }
    }
}

#[derive(Debug)]
enum Repr {
    NoSection { path: String },
    NoKey { path: String, key: String },
    Syntax { cause: Cause },
    BadUrl { cause: Cause },
}

/// The error of every operation of this library.
#[derive(Debug)]
pub struct MyError {
    repr: Repr,
}

impl View for MyError {
    type V = Failure;

    closed spec fn view(&self) -> Failure {
        match self.repr {
            Repr::NoSection { path } => Failure::NoSection { path: path@ },
            Repr::NoKey { path, key } => Failure::NoKey { path: path@, key: key@ },
            Repr::Syntax { cause } => Failure::Syntax { cause },
            Repr::BadUrl { cause } => Failure::BadUrl { cause },
        }
    }
}

impl MyError {
    /// Wraps the failure of a parser under one of the two parse kinds.
    pub fn new(kind: ErrorKind, cause: Cause) -> (r: MyError)
        requires
            kind.has_cause(),
        ensures
            r@ == wrapped(kind, cause),
    {
        Self::_new(kind, cause)
    }

    fn _new(kind: ErrorKind, cause: Cause) -> (r: MyError)
        requires
            kind.has_cause(),
        ensures
            r@ == wrapped(kind, cause),
    {
        match kind {
            ErrorKind::Parse => MyError { repr: Repr::Syntax { cause } },
            _ => MyError { repr: Repr::BadUrl { cause } },
        }
    }

    /// The error for a file without a section `configuration`.
    pub fn section_not_found(path: &str) -> (r: MyError)
        ensures
            r@ == (Failure::NoSection { path: path@ }),
    {
        MyError { repr: Repr::NoSection { path: String::from_str(path) } }
    }

    /// The error for a file whose section `configuration` has no key `key`.
    pub fn key_not_found(path: &str, key: &str) -> (r: MyError)
        ensures
            r@ == (Failure::NoKey { path: path@, key: key@ }),
    {
        MyError { repr: Repr::NoKey { path: String::from_str(path), key: String::from_str(key) } }
    }

    /// The kind of the error.
    pub fn kind(&self) -> (r: ErrorKind)
        ensures
            r == self@.kind(),
    {
        match self.repr {
            Repr::NoSection { .. } => ErrorKind::ConfigNotFound,
            Repr::NoKey { .. } => ErrorKind::KeyNotFound,
            Repr::Syntax { .. } => ErrorKind::Parse,
            Repr::BadUrl { .. } => ErrorKind::UrlError,
        }
    }

    /// The wrapped parser error, if the error has one.
    pub fn cause(&self) -> (r: Option<&Cause>)
        ensures
            self@.cause() == match r {
                Some(cause) => Some(*cause),
                None => None,
            },
    {
        match &self.repr {
            Repr::Syntax { cause } => Some(cause),
            Repr::BadUrl { cause } => Some(cause),
            _ => None,
        }
    }

    /// The path of the file, for the two "not found" kinds.
    pub fn path(&self) -> (r: Option<&str>)
        ensures
            self@.path() == match r {
                Some(path) => Some(path@),
                None => None,
            },
    {
        match &self.repr {
            Repr::NoSection { path } => Some(path.as_str()),
            Repr::NoKey { path, .. } => Some(path.as_str()),
            _ => None,
        }
    }

    /// The name of the missing key, for the kind `KeyNotFound`.
    pub fn key(&self) -> (r: Option<&str>)
        ensures
            self@.key() == match r {
                Some(key) => Some(key@),
                None => None,
            },
    {
        match &self.repr {
            Repr::NoKey { key, .. } => Some(key.as_str()),
            _ => None,
        }
    }

    /// The wrapped parser error, to be changed in place, if the error has
    /// one. The kind of the error stays.
    pub fn get_mut(&mut self) -> (r: Option<&mut Cause>)
        ensures
            old(self)@.cause() == match r {
                Some(cause) => Some(*cause),
                None => None,
            },
            final(self)@ == match r {
                Some(cause) => old(self)@.with_cause(*final(cause)),
                None => old(self)@,
            },
    {
        match &mut self.repr {
            Repr::Syntax { cause } => Some(cause),
            Repr::BadUrl { cause } => Some(cause),
            _ => None,
        }
    }

    /// Gives the wrapped parser error up, if the error has one.
    pub fn into_inner(self) -> (r: Option<Cause>)
        ensures
            r == self@.cause(),
    {
        match self.repr {
            Repr::Syntax { cause } => Some(cause),
            Repr::BadUrl { cause } => Some(cause),
            _ => None,
        }
    }

    /// The text of the error: words fixed for its kind, then the path of the
    /// file or the parser's own message.
    pub fn to_string(&self) -> (r: String)
        ensures
            r@ == self@.text(),
    {
        match &self.repr {
            Repr::NoSection { path } => {
                let mut out = String::from_str(ErrorKind::ConfigNotFound.as_str());
                out.append(" on file: ");
                let quoted = quoted_string(path.as_str());
                out.append(quoted.as_str());
                out
            },
            Repr::NoKey { path, key } => {
                let mut out = String::from_str("Key '");
                out.append(key.as_str());
                out.append("' not found on file: ");
                let quoted = quoted_string(path.as_str());
                out.append(quoted.as_str());
                out
            },
            Repr::Syntax { cause } => {
                let mut out = String::from_str(ErrorKind::Parse.as_str());
                out.append(": ");
                let inner = cause.to_string();
                out.append(inner.as_str());
                out
            },
            Repr::BadUrl { cause } => {
                let mut out = String::from_str(ErrorKind::UrlError.as_str());
                out.append(": ");
                let inner = cause.to_string();
                out.append(inner.as_str());
                out
            },
        }
    }
}

impl From<ini::ini::ParseError> for MyError {
    /// A syntax error of the INI parser becomes an error of kind `Parse`.
    fn from(error: ini::ini::ParseError) -> (r: MyError)
        ensures
            r@ == (Failure::Syntax { cause: Cause::Syntax(error) }),
    {
        MyError::new(ErrorKind::Parse, Cause::Syntax(error))
    }
}

impl FromSpecImpl<ini::ini::ParseError> for MyError {
    open spec fn obeys_from_spec() -> bool {
        true
    }

    closed spec fn from_spec(error: ini::ini::ParseError) -> MyError {
        MyError { repr: Repr::Syntax { cause: Cause::Syntax(error) } }
    }
}

impl From<url::ParseError> for MyError {
    /// An error of the URL parser becomes an error of kind `UrlError`.
    fn from(error: url::ParseError) -> (r: MyError)
        ensures
            r@ == (Failure::BadUrl { cause: Cause::Url(error) }),
    {
        MyError::new(ErrorKind::UrlError, Cause::Url(error))
    }
}

impl FromSpecImpl<url::ParseError> for MyError {
    open spec fn obeys_from_spec() -> bool {
        true
    }

    closed spec fn from_spec(error: url::ParseError) -> MyError {
        MyError { repr: Repr::BadUrl { cause: Cause::Url(error) } }
    }
}

} // verus!
