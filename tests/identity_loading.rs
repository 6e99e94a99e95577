use cli_common::config::Platform;
use cli_common::identities::{IdentityLoader, LoadError, ReadOutcome};

/// Runs a load to its end, reading each file from `files`: a list of
/// (path, outcome) pairs standing in for the file system.
fn load(
    names: Vec<&str>,
    config_dir: Option<&str>,
    files: Vec<(&str, ReadOutcome<String, String>)>,
) -> (Result<Vec<String>, LoadError<String>>, Vec<String>) {
    let mut files = files;
    let mut asked: Vec<String> = Vec::new();
    let start = IdentityLoader::<String>::start(
        names.into_iter().map(String::from).collect(),
        Platform::Other,
        config_dir.map(String::from),
    );
    let mut loader = match start {
        Ok(l) => l,
        Err(e) => return (Err(e), asked),
    };
    loop {
        let path = match loader.next_path() {
            None => return (Ok(loader.finish()), asked),
            Some(p) => p.clone(),
        };
        asked.push(path.clone());
        let pos = files.iter().position(|(p, _)| *p == path);
        let outcome = match pos {
            Some(i) => files.remove(i).1,
            None => ReadOutcome::NotFound(format!("{}: not found", path)),
        };
        loader = match loader.feed(outcome) {
            Ok(l) => l,
            Err(e) => return (Err(e), asked),
        };
    }
}

fn parsed(ids: &[&str]) -> ReadOutcome<String, String> {
    ReadOutcome::Parsed(ids.iter().map(|s| s.to_string()).collect())
}

#[test]
fn explicit_files_load_in_order() {
    let (r, asked) = load(
        vec!["keys1.txt", "keys2.txt"],
        None,
        vec![("keys1.txt", parsed(&["identity-one"])), ("keys2.txt", parsed(&["identity-two"]))],
    );
    assert_eq!(r.ok().unwrap(), vec!["identity-one".to_string(), "identity-two".to_string()]);
    assert_eq!(asked, vec!["keys1.txt".to_string(), "keys2.txt".to_string()]);
}

#[test]
fn explicit_load_is_concatenation() {
    let a = || parsed(&["a1", "a2"]);
    let b = || parsed(&["b1"]);
    let (both, _) = load(vec!["A", "B"], None, vec![("A", a()), ("B", b())]);
    let (only_a, _) = load(vec!["A"], None, vec![("A", a())]);
    let (only_b, _) = load(vec!["B"], None, vec![("B", b())]);
    let mut joined = only_a.ok().unwrap();
    joined.extend(only_b.ok().unwrap());
    assert_eq!(both.ok().unwrap(), joined);
}

#[test]
fn duplicates_are_kept() {
    let (r, _) = load(
        vec!["k.txt", "k2.txt"],
        None,
        vec![("k.txt", parsed(&["same"])), ("k2.txt", parsed(&["same", "same"]))],
    );
    assert_eq!(r.ok().unwrap().len(), 3);
}

#[test]
fn explicit_failure_aborts_without_partial_result() {
    let (r, asked) = load(
        vec!["good.txt", "bad.txt", "later.txt"],
        None,
        vec![
            ("good.txt", parsed(&["ok"])),
            ("bad.txt", ReadOutcome::Failed("parse error".to_string())),
            ("later.txt", parsed(&["never"])),
        ],
    );
    assert!(matches!(r, Err(LoadError::Read(ref e)) if e == "parse error"));
    assert_eq!(asked.len(), 2);
}

#[test]
fn missing_explicit_file_is_an_io_error() {
    let (r, _) = load(vec!["nope.txt"], Some("/home/alice/.config"), vec![]);
    assert!(matches!(r, Err(LoadError::Read(ref e)) if e == "nope.txt: not found"));
}

#[test]
fn default_file_present_gives_its_identities() {
    let (r, asked) = load(
        vec![],
        Some("/home/alice/.config"),
        vec![("/home/alice/.config/age/keys.txt", parsed(&["default-id"]))],
    );
    assert_eq!(r.ok().unwrap(), vec!["default-id".to_string()]);
    assert_eq!(asked, vec!["/home/alice/.config/age/keys.txt".to_string()]);
}

#[test]
fn default_file_missing_names_the_path() {
    let (r, asked) = load(vec![], Some("/home/alice/.config"), vec![]);
    assert_eq!(asked, vec!["/home/alice/.config/age/keys.txt".to_string()]);
    match r {
        Err(LoadError::MissingDefault(path)) => {
            assert_eq!(path, "/home/alice/.config/age/keys.txt");
        }
        _ => panic!("expected a missing default identity"),
    }
}

#[test]
fn default_file_other_failure_is_passed_on() {
    let (r, _) = load(
        vec![],
        Some("/cfg"),
        vec![("/cfg/age/keys.txt", ReadOutcome::Failed("permission denied".to_string()))],
    );
    assert!(matches!(r, Err(LoadError::Read(ref e)) if e == "permission denied"));
}

#[test]
fn no_config_dir_is_fatal() {
    let (r, asked) = load(vec![], None, vec![]);
    assert!(matches!(r, Err(LoadError::NoConfigDir)));
    assert!(asked.is_empty());
}

#[test]
fn explicit_files_ignore_config_dir() {
    let r = IdentityLoader::<String>::start_on::<String>(vec!["x.txt".to_string()], Platform::Other);
    let loader = r.ok().unwrap();
    assert_eq!(loader.next_path().unwrap(), "x.txt");
}
