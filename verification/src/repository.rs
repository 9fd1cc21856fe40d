//! The repository descriptor and its resolution from configuration text.
//!
//! Resolution goes through four steps and stops at the first that fails:
//! the text is parsed as INI, the section `configuration` is looked up, the
//! key `url` is looked up in it, and its value is parsed as a URL.

use crate::bindings::{
    find_section, find_value, ini_parse, ini_sections, parse_ini, parse_url, url_parse,
};
use crate::error::{Cause, Failure, MyError};
use crate::scan::{escapes_surrogate, has_surrogate_escape};
use std::collections::HashMap;
use vstd::prelude::*;
use vstd::string::*;

verus! {

/// A named repository endpoint.
#[derive(Debug, Clone)]
pub struct Repository {
    /// The name of the repository. It is fixed, and says nothing of the file
    /// or of the URL.
    pub name: String,
    /// The endpoint, an absolute URL.
    pub url: url::Url,
}

/// A repository as a mathematical value.
pub struct RepositoryView {
    pub name: Seq<char>,
    pub url: url::Url,
}

impl View for Repository {
    type V = RepositoryView;

    open spec fn view(&self) -> RepositoryView {
        RepositoryView { name: self.name@, url: self.url }
    }
}

/// The name of the section that holds the endpoint.
pub open spec fn section_name() -> Seq<char> {
    "configuration"@
}

/// The name of the key that holds the endpoint.
pub open spec fn key_name() -> Seq<char> {
    "url"@
}

/// The name that every resolved repository has.
pub open spec fn repository_name() -> Seq<char> {
    "algo"@
}

/// The value of the key `url` of the section `configuration`, or the failure
/// that tells which of the two is missing. Other sections and keys have no
/// part in it.
pub open spec fn selected(path: Seq<char>, sections: Map<Seq<char>, Map<Seq<char>, Seq<char>>>)
    -> Result<Seq<char>, Failure> {
    if !sections.contains_key(section_name()) {
        Err(Failure::NoSection { path })
    } else if !sections[section_name()].contains_key(key_name()) {
        Err(Failure::NoKey { path, key: key_name() })
    } else {
        Ok(sections[section_name()][key_name()])
    }
}

/// The repository around a parsed URL, or the failure around the URL
/// parser's error.
pub open spec fn accepted(parsed: Result<url::Url, url::ParseError>) -> Result<
    RepositoryView,
    Failure,
> {
    match parsed {
        Ok(url) => Ok(RepositoryView { name: repository_name(), url }),
        Err(error) => Err(Failure::BadUrl { cause: Cause::Url(error) }),
    }
}

/// What the sections of a parsed document resolve to.
pub open spec fn resolved_sections(
    path: Seq<char>,
    sections: Map<Seq<char>, Map<Seq<char>, Seq<char>>>,
) -> Result<RepositoryView, Failure> {
    match selected(path, sections) {
        Ok(value) => accepted(url_parse(value)),
        Err(failure) => Err(failure),
    }
}

/// What the text of the file at `path` resolves to.
pub open spec fn resolved(path: Seq<char>, text: Seq<char>) -> Result<RepositoryView, Failure> {
    match ini_parse(text) {
        Ok(doc) => resolved_sections(path, ini_sections(doc)),
        Err(error) => Err(Failure::Syntax { cause: Cause::Syntax(error) }),
    }
}

/// The outcome of a resolution as a mathematical value.
pub open spec fn outcome(r: Result<Repository, MyError>) -> Result<RepositoryView, Failure> {
    match r {
        Ok(repository) => Ok(repository@),
        Err(error) => Err(error@),
    }
}

/// The section that a lookup found, or the error for the file at `path`
/// when it found none.
pub fn require_section<'a>(path: &str, found: Option<&'a HashMap<String, String>>) -> (r: Result<
    &'a HashMap<String, String>,
    MyError,
>)
    ensures
        match found {
            Some(props) => r == Ok::<&HashMap<String, String>, MyError>(props),
            None => r.is_err() && r.unwrap_err()@ == (Failure::NoSection { path: path@ }),
        },
{
    match found {
        Some(props) => Ok(props),
        None => Err(MyError::section_not_found(path)),
    }
}

/// The value that a lookup of `key` found, or the error for the file at
/// `path` when it found none.
pub fn require_value<'a>(path: &str, key: &str, found: Option<&'a String>) -> (r: Result<
    &'a str,
    MyError,
>)
    ensures
        match found {
            Some(value) => r.is_ok() && r.unwrap()@ == value@,
            None => r.is_err() && r.unwrap_err()@ == (Failure::NoKey { path: path@, key: key@ }),
        },
{
    match found {
        Some(value) => Ok(value.as_str()),
        None => Err(MyError::key_not_found(path, key)),
    }
}

/// The value of the key `url` in the section `configuration` of a parsed
/// document. `path` names the file in the error.
pub fn select_url<'a>(path: &str, doc: &'a ini::Ini) -> (r: Result<&'a str, MyError>)
    ensures
        match selected(path@, ini_sections(*doc)) {
            Ok(value) => r.is_ok() && r.unwrap()@ == value,
            Err(failure) => r.is_err() && r.unwrap_err()@ == failure,
        },
{
    let props = match require_section(path, find_section(doc, "configuration")) {
        Ok(props) => props,
        Err(error) => {
            return Err(error);
        },
    };
    require_value(path, "url", find_value(props, "url"))
}

/// The repository around the result of the URL parser, or the error around
/// its failure.
pub fn accept_url(parsed: Result<url::Url, url::ParseError>) -> (r: Result<Repository, MyError>)
    ensures
        outcome(r) == accepted(parsed),
{
    match parsed {
        Ok(url) => Ok(Repository { name: String::from_str("algo"), url }),
        Err(error) => Err(MyError::from(error)),
    }
}

/// Resolves the repository that the text of a configuration file names.
/// `path` is the path of the file; it is quoted in the errors and not read.
pub fn from_text(path: &str, text: &str) -> (r: Result<Repository, MyError>)
    requires
        !escapes_surrogate(text.spec_bytes()),
    ensures
        outcome(r) == resolved(path@, text@),
{
    let doc = match parse_ini(text) {
        Ok(doc) => doc,
        Err(error) => {
            return Err(MyError::from(error));
        },
    };
    let value = match select_url(path, &doc) {
        Ok(value) => value,
        Err(error) => {
            return Err(error);
        },
    };
    accept_url(parse_url(value))
}

/// Resolves as [`from_text`] does, after a scan of the text. It returns
/// `None` for a text with an escape that the INI parser cannot decode, and
/// for no other.
pub fn try_from_text(path: &str, text: &str) -> (r: Option<Result<Repository, MyError>>)
    ensures
        r.is_none() == escapes_surrogate(text.spec_bytes()),
        r matches Some(result) ==> outcome(result) == resolved(path@, text@),
{
    if has_surrogate_escape(text) {
        None
    } else {
        Some(from_text(path, text))
    }
}

} // verus!
