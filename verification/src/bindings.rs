//! What this library takes on trust from the `ini` and `url` crates.
//!
//! Nothing in this file is proved. Each function here makes one call into an
//! outside crate, and its contract is a claim about that crate. The values of
//! the outside types are opaque: the contracts speak of them through the
//! names declared here.

use crate::scan::escapes_surrogate;
use std::collections::HashMap;
use vstd::prelude::*;
use vstd::string::*;

verus! {

/// A parsed INI document.
#[verifier::external_type_specification]
#[verifier::external_body]
pub struct ExIni(ini::Ini);

/// The syntax error of the INI parser: a line, a column and a message.
#[verifier::external_type_specification]
#[verifier::external_body]
pub struct ExIniParseError(ini::ini::ParseError);

/// A parsed, absolute URL.
#[verifier::external_type_specification]
#[verifier::external_body]
pub struct ExUrl(url::Url);

/// The reason for which a string is no absolute URL.
#[verifier::external_type_specification]
#[verifier::external_body]
pub struct ExUrlParseError(url::ParseError);

/// What `ini::Ini::load_from_str` returns for a text.
pub uninterp spec fn ini_parse(text: Seq<char>) -> Result<ini::Ini, ini::ini::ParseError>;

/// The named sections of a document: for each section name, the keys of that
/// section with their values.
pub uninterp spec fn ini_sections(doc: ini::Ini) -> Map<Seq<char>, Map<Seq<char>, Seq<char>>>;

/// The keys of one section with their values.
pub uninterp spec fn section_entries(props: HashMap<String, String>) -> Map<Seq<char>, Seq<char>>;

/// What `url::Url::parse` returns for a string.
pub uninterp spec fn url_parse(input: Seq<char>) -> Result<url::Url, url::ParseError>;

/// The text that a syntax error of the INI parser displays.
pub uninterp spec fn ini_error_text(error: ini::ini::ParseError) -> Seq<char>;

/// The text that an error of the URL parser displays.
pub uninterp spec fn url_error_text(error: url::ParseError) -> Seq<char>;

/// A string as `{:?}` formats it: between double quotes, with escapes.
pub uninterp spec fn quoted_text(s: Seq<char>) -> Seq<char>;

/// Calls `ini::Ini::load_from_str`. The parser is a function of the text
/// alone, so its result has a name, [`ini_parse`]. It stops the program
/// where it decodes an escape `\x` with a code from D800 to DFFF, and
/// nowhere else: every text that holds the six characters of such an escape
/// is left out.
#[verifier::external_body]
pub(crate) fn parse_ini(text: &str) -> (r: Result<ini::Ini, ini::ini::ParseError>)
    requires
        !escapes_surrogate(text.spec_bytes()),
    ensures
        r == ini_parse(text@),
{
    ini::Ini::load_from_str(text)
}

/// Calls `ini::Ini::section` with a section name. It returns the section of
/// that name if the document has one, and `None` if it has none.
#[verifier::external_body]
pub(crate) fn find_section<'a>(doc: &'a ini::Ini, name: &str) -> (r: Option<
    &'a HashMap<String, String>,
>)
    ensures
        r.is_some() == ini_sections(*doc).contains_key(name@),
        r matches Some(props) ==> section_entries(*props) == ini_sections(*doc)[name@],
{
    doc.section(Some(name))
}

/// Calls `get` on a section, which is a hash map from key to value. It
/// returns the value of the key if the section has the key, and `None` if it
/// has not.
#[verifier::external_body]
pub(crate) fn find_value<'a>(props: &'a HashMap<String, String>, key: &str) -> (r: Option<
    &'a String,
>)
    ensures
        r.is_some() == section_entries(*props).contains_key(key@),
        r matches Some(value) ==> value@ == section_entries(*props)[key@],
{
    props.get(key)
}

/// Calls `url::Url::parse`. The parser is a function of the string alone, so
/// its result has a name, [`url_parse`].
#[verifier::external_body]
pub(crate) fn parse_url(input: &str) -> (r: Result<url::Url, url::ParseError>)
    ensures
        r == url_parse(input@),
{
    url::Url::parse(input)
}

/// `url::Url` derives `Clone`: the clone is the same URL.
pub assume_specification[ <url::Url as Clone>::clone ](url: &url::Url) -> (r: url::Url)
    ensures
        r == *url,
;

/// Formats a syntax error of the INI parser with its `Display`: the line, a
/// colon, the column, a space and the message. The text has a name,
/// [`ini_error_text`].
#[verifier::external_body]
pub(crate) fn ini_error_string(error: &ini::ini::ParseError) -> (r: String)
    ensures
        r@ == ini_error_text(*error),
{
    error.to_string()
}

/// Formats an error of the URL parser with its `Display`, a fixed message
/// for each reason. The text has a name, [`url_error_text`].
#[verifier::external_body]
pub(crate) fn url_error_string(error: &url::ParseError) -> (r: String)
    ensures
        r@ == url_error_text(*error),
{
    error.to_string()
}

/// Formats a string with `{:?}`. The text has a name, [`quoted_text`].
#[verifier::external_body]
pub(crate) fn quoted_string(s: &str) -> (r: String)
    ensures
        r@ == quoted_text(s@),
{
    format!("{:?}", s)
}

} // verus!
