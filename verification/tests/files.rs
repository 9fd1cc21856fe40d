use repo_config::{try_from_text, ErrorKind, MyError, Repository};
use std::io::{Read, Write};
use tempfile::NamedTempFile;

fn resolve_file(file: &NamedTempFile) -> Result<Repository, MyError> {
    let mut text = String::new();
    file.reopen().unwrap().read_to_string(&mut text).unwrap();
    let path = file.path().to_string_lossy();
    try_from_text(&path, &text).unwrap()
}

#[test]
fn one_result() {
    let mut file = NamedTempFile::new().unwrap();
    file.write_all(
        b"[Globals]

[configuration]
url         = http://tttechsvn.vie.at.tttech.ttt
access      = svn
variable    = SVNROOT
layout      = tbtn
responsible = MSF
",
    )
    .unwrap();
    let repository = resolve_file(&file).unwrap();
    assert_eq!(repository.url.to_string(), "http://tttechsvn.vie.at.tttech.ttt/");
    assert_eq!(repository.name, "algo");
}

#[test]
fn fail_parse() {
    let mut file = NamedTempFile::new().unwrap();
    file.write_all(
        b"[Globals

url         = http://tttechsvn.vie.at.tttech.ttt
access      = svn
variable    = SVNROOT
layout      = tbtn
responsible = MSF
",
    )
    .unwrap();
    let err = resolve_file(&file).err().unwrap();
    assert_eq!(err.kind(), ErrorKind::Parse);
    assert!(err.to_string().starts_with("INI parse error:"));
    assert_eq!(
        err.to_string(),
        format!("INI parse error: {}", err.cause().unwrap().to_string())
    );
    assert!(err.cause().unwrap().to_string().starts_with("7:0 Expecting"));
}

#[test]
fn fail_section() {
    let mut file = NamedTempFile::new().unwrap();
    file.write_all(
        b"[Globals]

[no correct name]
url         = http://tttechsvn.vie.at.tttech.ttt
access      = svn
variable    = SVNROOT
layout      = tbtn
responsible = MSF
",
    )
    .unwrap();
    let err = resolve_file(&file).err().unwrap();
    assert_eq!(err.kind(), ErrorKind::ConfigNotFound);
    assert!(err.to_string().starts_with("'configuration' section not found"));
    assert_eq!(
        err.to_string(),
        format!("'configuration' section not found on file: {:?}", file.path())
    );
    assert!(err.cause().is_none());
}

#[test]
fn fail_key() {
    let mut file = NamedTempFile::new().unwrap();
    file.write_all(
        b"[Globals]

[configuration]
access      = svn
variable    = SVNROOT
layout      = tbtn
responsible = MSF
",
    )
    .unwrap();
    let err = resolve_file(&file).err().unwrap();
    assert_eq!(err.kind(), ErrorKind::KeyNotFound);
    assert!(err.to_string().starts_with("Key 'url' not found"));
    assert_eq!(err.to_string(), format!("Key 'url' not found on file: {:?}", file.path()));
    assert!(err.cause().is_none());
}

#[test]
fn fail_parse_url() {
    let mut file = NamedTempFile::new().unwrap();
    file.write_all(
        "[Globals]\n\n[configuration]\nurl         = tttechsvn.vie.at.tttech.ttt\n\n".as_bytes(),
    )
    .unwrap();
    let err = resolve_file(&file).err().unwrap();
    assert_eq!(err.kind(), ErrorKind::UrlError);
    assert!(err.to_string().ends_with("relative URL without a base"));
    assert_eq!(err.to_string(), "URL parse error: relative URL without a base");
    assert_eq!(err.into_inner().unwrap().to_string(), "relative URL without a base");
}

#[test]
fn resolving_a_file_twice_gives_the_same_repository() {
    let mut file = NamedTempFile::new().unwrap();
    file.write_all(b"[configuration]\nurl = https://example.org/svn\n").unwrap();
    let first = resolve_file(&file).unwrap();
    let second = resolve_file(&file).unwrap();
    assert_eq!(first.name, second.name);
    assert_eq!(first.url, second.url);
}

#[test]
fn resolving_a_bad_file_twice_gives_the_same_error() {
    let mut file = NamedTempFile::new().unwrap();
    file.write_all(b"[other]\nurl = https://example.org/svn\n").unwrap();
    let first = resolve_file(&file).err().unwrap();
    let second = resolve_file(&file).err().unwrap();
    assert_eq!(first.kind(), second.kind());
    assert_eq!(first.to_string(), second.to_string());
}
