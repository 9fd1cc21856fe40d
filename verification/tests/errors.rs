use repo_config::{from_text, Cause, ErrorKind, MyError};

fn syntax_error() -> ini::ini::ParseError {
    ini::Ini::load_from_str("[open").err().unwrap()
}

#[test]
fn kinds_have_their_descriptions() {
    assert_eq!(ErrorKind::ConfigNotFound.as_str(), "'configuration' section not found");
    assert_eq!(ErrorKind::KeyNotFound.as_str(), "Key not found");
    assert_eq!(ErrorKind::Parse.as_str(), "INI parse error");
    assert_eq!(ErrorKind::UrlError.as_str(), "URL parse error");
}

#[test]
fn only_parse_kinds_have_a_cause() {
    assert!(ErrorKind::Parse.has_cause());
    assert!(ErrorKind::UrlError.has_cause());
    assert!(!ErrorKind::ConfigNotFound.has_cause());
    assert!(!ErrorKind::KeyNotFound.has_cause());
}

#[test]
fn new_wraps_the_cause_under_the_kind() {
    let err = MyError::new(ErrorKind::Parse, Cause::Syntax(syntax_error()));
    assert_eq!(err.kind(), ErrorKind::Parse);
    assert!(matches!(err.cause(), Some(Cause::Syntax(_))));
    let err = MyError::new(ErrorKind::UrlError, Cause::Url(url::ParseError::EmptyHost));
    assert_eq!(err.kind(), ErrorKind::UrlError);
    assert_eq!(err.to_string(), "URL parse error: empty host");
    assert!(matches!(err.into_inner(), Some(Cause::Url(url::ParseError::EmptyHost))));
}

#[test]
fn parser_errors_convert_to_their_kind() {
    let err = MyError::from(syntax_error());
    assert_eq!(err.kind(), ErrorKind::Parse);
    assert!(err.to_string().starts_with("INI parse error: 0:5 Expecting"));
    let err = MyError::from(url::ParseError::InvalidIpv6Address);
    assert_eq!(err.kind(), ErrorKind::UrlError);
    assert_eq!(err.to_string(), "URL parse error: invalid IPv6 address");
}

#[test]
fn not_found_errors_have_no_cause() {
    let mut err = MyError::section_not_found("conf.ini");
    assert_eq!(err.kind(), ErrorKind::ConfigNotFound);
    assert!(err.cause().is_none());
    assert!(err.get_mut().is_none());
    assert!(err.into_inner().is_none());
    let mut err = MyError::key_not_found("conf.ini", "url");
    assert_eq!(err.kind(), ErrorKind::KeyNotFound);
    assert!(err.cause().is_none());
    assert!(err.get_mut().is_none());
    assert_eq!(err.key(), Some("url"));
    assert!(err.into_inner().is_none());
}

#[test]
fn get_mut_changes_the_cause_in_place() {
    let mut err = MyError::from(url::ParseError::EmptyHost);
    if let Some(cause) = err.get_mut() {
        *cause = Cause::Url(url::ParseError::InvalidPort);
    }
    assert_eq!(err.kind(), ErrorKind::UrlError);
    assert_eq!(err.to_string(), "URL parse error: invalid port number");
}

#[test]
fn cause_tells_the_parsers_apart() {
    let syntax = from_text("conf.ini", "[open").err().unwrap();
    let url = from_text("conf.ini", "[configuration]\nurl = //nothing\n").err().unwrap();
    assert!(matches!(syntax.into_inner(), Some(Cause::Syntax(_))));
    assert!(matches!(url.into_inner(), Some(Cause::Url(_))));
}

#[test]
fn cause_displays_the_parser_message() {
    assert_eq!(Cause::Url(url::ParseError::IdnaError).to_string(), "invalid international domain name");
    let text = Cause::Syntax(syntax_error()).to_string();
    assert_eq!(text, "0:5 Expecting \"[Some(']')]\" but found EOF.");
}
