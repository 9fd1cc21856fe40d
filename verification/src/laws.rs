//! What holds of every resolution, stated over the mathematical values of
//! the outcomes and proved.

use crate::bindings::{ini_parse, ini_sections, url_error_text, url_parse};
use crate::error::{Cause, Failure, MyError};
use crate::kind::ErrorKind;
use crate::repository::{
    key_name, outcome, repository_name, resolved, resolved_sections, section_name, selected,
    Repository, RepositoryView,
};
use vstd::prelude::*;

verus! {

/// A failure has a cause if and only if its kind is one of the two parse
/// kinds: a "not found" failure never wraps a parser error, and a parse
/// failure always does.
pub proof fn lemma_cause_follows_kind(failure: Failure)
    ensures
        failure.cause().is_some() <==> failure.kind().has_cause(),
        failure.path().is_some() <==> !failure.kind().has_cause(),
        failure.key().is_some() <==> failure.kind() == ErrorKind::KeyNotFound,
{
}

/// The text of a failure starts with words that are fixed for its kind.
pub proof fn lemma_text_starts_with_kind(failure: Failure)
    ensures
        failure.kind() == ErrorKind::ConfigNotFound
            ==> "'configuration' section not found on file: "@.is_prefix_of(failure.text()),
        failure.kind() == ErrorKind::KeyNotFound ==> "Key '"@.is_prefix_of(failure.text()),
        failure.kind() == ErrorKind::Parse ==> "INI parse error: "@.is_prefix_of(failure.text()),
        failure.kind() == ErrorKind::UrlError ==> "URL parse error: "@.is_prefix_of(
            failure.text(),
        ),
{
    reveal_strlit("'configuration' section not found on file: ");
    reveal_strlit("'configuration' section not found");
    reveal_strlit(" on file: ");
    reveal_strlit("Key '");
    reveal_strlit("INI parse error: ");
    reveal_strlit("INI parse error");
    reveal_strlit("URL parse error: ");
    reveal_strlit("URL parse error");
    reveal_strlit(": ");
}

/// Where the text parses, has a section `configuration` with a key `url`,
/// and the value of that key parses as a URL, the resolution succeeds: the
/// repository has the fixed name and the URL that the URL parser made of the
/// value.
pub proof fn lemma_valid_file_resolves(path: Seq<char>, text: Seq<char>)
    requires
        ini_parse(text) is Ok,
        ini_sections(ini_parse(text)->Ok_0).contains_key(section_name()),
        ini_sections(ini_parse(text)->Ok_0)[section_name()].contains_key(key_name()),
        url_parse(ini_sections(ini_parse(text)->Ok_0)[section_name()][key_name()]) is Ok,
    ensures
        resolved(path, text) == Ok::<RepositoryView, Failure>(
            RepositoryView {
                name: repository_name(),
                url: url_parse(
                    ini_sections(ini_parse(text)->Ok_0)[section_name()][key_name()],
                )->Ok_0,
            },
        ),
        repository_name().len() > 0,
{
    reveal_strlit("algo");
}

/// Where the text does not parse as INI, the resolution fails with kind
/// `Parse`, the parser's error is the cause, and the text of the failure
/// starts with `INI parse error:`.
pub proof fn lemma_bad_syntax_is_reported(path: Seq<char>, text: Seq<char>)
    requires
        ini_parse(text) is Err,
    ensures
        resolved(path, text) is Err,
        resolved(path, text)->Err_0.kind() == ErrorKind::Parse,
        resolved(path, text)->Err_0.cause() == Some(Cause::Syntax(ini_parse(text)->Err_0)),
        "INI parse error:"@.is_prefix_of(resolved(path, text)->Err_0.text()),
{
    reveal_strlit("INI parse error:");
    reveal_strlit("INI parse error");
    reveal_strlit(": ");
}

/// Where the text parses and has no section `configuration`, the resolution
/// fails with kind `ConfigNotFound` and names the file; the text of the
/// failure starts with `'configuration' section not found`. This holds
/// whatever else the file holds.
pub proof fn lemma_missing_section_is_reported(path: Seq<char>, text: Seq<char>)
    requires
        ini_parse(text) is Ok,
        !ini_sections(ini_parse(text)->Ok_0).contains_key(section_name()),
    ensures
        resolved(path, text) == Err::<RepositoryView, Failure>(Failure::NoSection { path }),
        resolved(path, text)->Err_0.kind() == ErrorKind::ConfigNotFound,
        "'configuration' section not found"@.is_prefix_of(resolved(path, text)->Err_0.text()),
{
    reveal_strlit("'configuration' section not found");
}

/// Where the section `configuration` has no key `url`, the resolution fails
/// with kind `KeyNotFound` and names the file and the key; the text of the
/// failure starts with `Key 'url' not found`.
pub proof fn lemma_missing_key_is_reported(path: Seq<char>, text: Seq<char>)
    requires
        ini_parse(text) is Ok,
        ini_sections(ini_parse(text)->Ok_0).contains_key(section_name()),
        !ini_sections(ini_parse(text)->Ok_0)[section_name()].contains_key(key_name()),
    ensures
        resolved(path, text) == Err::<RepositoryView, Failure>(
            Failure::NoKey { path, key: key_name() },
        ),
        resolved(path, text)->Err_0.kind() == ErrorKind::KeyNotFound,
        "Key 'url' not found"@.is_prefix_of(resolved(path, text)->Err_0.text()),
{
    reveal_strlit("Key 'url' not found");
    reveal_strlit("Key '");
    reveal_strlit("url");
    reveal_strlit("' not found on file: ");
}

/// Where the value of `url` does not parse as a URL, the resolution fails
/// with kind `UrlError`, the URL parser's error is the cause, and the text
/// of the failure ends with that error's own message.
pub proof fn lemma_bad_url_is_reported(path: Seq<char>, text: Seq<char>)
    requires
        ini_parse(text) is Ok,
        ini_sections(ini_parse(text)->Ok_0).contains_key(section_name()),
        ini_sections(ini_parse(text)->Ok_0)[section_name()].contains_key(key_name()),
        url_parse(ini_sections(ini_parse(text)->Ok_0)[section_name()][key_name()]) is Err,
    ensures
        resolved(path, text) is Err,
        resolved(path, text)->Err_0.kind() == ErrorKind::UrlError,
        resolved(path, text)->Err_0.cause() == Some(
            Cause::Url(
                url_parse(
                    ini_sections(ini_parse(text)->Ok_0)[section_name()][key_name()],
                )->Err_0,
            ),
        ),
        url_error_text(
            url_parse(ini_sections(ini_parse(text)->Ok_0)[section_name()][key_name()])->Err_0,
        ).is_suffix_of(resolved(path, text)->Err_0.text()),
{
}

/// Two resolutions of the same text of the same file agree: both give the
/// same repository, or both fail with the same kind, the same cause and the
/// same text.
pub proof fn lemma_resolution_repeats(
    path: Seq<char>,
    text: Seq<char>,
    first: Result<Repository, MyError>,
    second: Result<Repository, MyError>,
)
    requires
        outcome(first) == resolved(path, text),
        outcome(second) == resolved(path, text),
    ensures
        first is Ok <==> second is Ok,
        first is Ok ==> first->Ok_0@ == second->Ok_0@,
        first is Err ==> first->Err_0@ == second->Err_0@,
        first is Err ==> first->Err_0@.kind() == second->Err_0@.kind(),
        first is Err ==> first->Err_0@.text() == second->Err_0@.text(),
{
}

/// A resolution has exactly one outcome, and that of a failure is one of the
/// four kinds.
pub proof fn lemma_outcome_is_total(path: Seq<char>, text: Seq<char>)
    ensures
        resolved(path, text) is Ok || resolved(path, text) is Err,
        resolved(path, text) is Ok ==> resolved(path, text)->Ok_0.name == repository_name(),
        resolved(path, text) is Err ==> (resolved(path, text)->Err_0.kind()
            == ErrorKind::ConfigNotFound || resolved(path, text)->Err_0.kind()
            == ErrorKind::KeyNotFound || resolved(path, text)->Err_0.kind() == ErrorKind::Parse
            || resolved(path, text)->Err_0.kind() == ErrorKind::UrlError),
{
}

/// Sections and keys other than the two required ones have no part in the
/// outcome: two documents that agree on whether the section `configuration`
/// is there, on whether it has the key `url`, and on the value of that key,
/// resolve alike.
pub proof fn lemma_other_entries_are_ignored(
    path: Seq<char>,
    a: Map<Seq<char>, Map<Seq<char>, Seq<char>>>,
    b: Map<Seq<char>, Map<Seq<char>, Seq<char>>>,
)
    requires
        a.contains_key(section_name()) == b.contains_key(section_name()),
        a.contains_key(section_name()) ==> (a[section_name()].contains_key(key_name())
            == b[section_name()].contains_key(key_name())),
        a.contains_key(section_name()) && a[section_name()].contains_key(key_name())
            ==> a[section_name()][key_name()] == b[section_name()][key_name()],
    ensures
        selected(path, a) == selected(path, b),
        resolved_sections(path, a) == resolved_sections(path, b),
{
}

/// The first step that fails decides: a missing section is reported whatever
/// the rest of the document holds, and a missing key whatever the URL parser
/// would have said.
pub proof fn lemma_first_failure_wins(
    path: Seq<char>,
    sections: Map<Seq<char>, Map<Seq<char>, Seq<char>>>,
)
    ensures
        !sections.contains_key(section_name()) ==> resolved_sections(path, sections) == Err::<
            RepositoryView,
            Failure,
        >(Failure::NoSection { path }),
        sections.contains_key(section_name()) && !sections[section_name()].contains_key(
            key_name(),
        ) ==> resolved_sections(path, sections) == Err::<RepositoryView, Failure>(
            Failure::NoKey { path, key: key_name() },
        ),
{
}

} // verus!
