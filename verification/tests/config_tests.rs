use esolang_ide::config::{config_location, ConfigLocation};
use esolang_ide::{ExtInterpreter, ExtInterpreterConfig, ExternalInterpreter};

fn interp(name: &str, path: &str) -> ExtInterpreter {
    ExtInterpreter {
        name: name.to_string(),
        exe_path: path.to_string(),
        file_extensions: vec!["st".to_string()],
    }
}

fn sample() -> ExtInterpreterConfig {
    let mut c = ExtInterpreterConfig::new();
    assert!(c.insert("ststst".to_string(), interp("StackStackStack", "/bin/ststst")).is_none());
    assert!(c.insert("bf".to_string(), interp("Brainfuck", "")).is_none());
    c
}

#[test]
fn empty_config_has_nothing() {
    let c = ExtInterpreterConfig::new();
    assert!(c.interpreters().is_empty());
    assert!(c.language_names().is_empty());
    assert!(c.available_languages().is_empty());
    assert!(c.get("bf").is_none());
    assert!(!c.is_available("bf"));
}

#[test]
fn get_finds_the_configured_interpreter() {
    let c = sample();
    let e = c.get("ststst").unwrap();
    assert_eq!(e.name, "StackStackStack");
    assert_eq!(e.exe_path, "/bin/ststst");
    assert_eq!(e.file_extensions, vec!["st".to_string()]);
    assert!(c.get("missing").is_none());
}

#[test]
fn availability_needs_a_path() {
    let c = sample();
    assert!(c.is_available("ststst"));
    assert!(!c.is_available("bf"));
    assert!(!c.is_available("missing"));
}

#[test]
fn names_and_pairs_follow_the_entries() {
    let c = sample();
    assert_eq!(c.language_names(), vec!["StackStackStack".to_string(), "Brainfuck".to_string()]);
    assert_eq!(
        c.available_languages(),
        vec![
            ("ststst".to_string(), "StackStackStack".to_string()),
            ("bf".to_string(), "Brainfuck".to_string())
        ]
    );
    let all = c.interpreters();
    assert_eq!(all.len(), 2);
    assert_eq!(all[1].name, "Brainfuck");
}

#[test]
fn insert_replaces_under_the_same_id() {
    let mut c = sample();
    let old = c.insert("bf".to_string(), interp("BF", "/bin/bf")).unwrap();
    assert_eq!(old.name, "Brainfuck");
    assert_eq!(c.get("bf").unwrap().name, "BF");
    assert!(c.is_available("bf"));
    assert_eq!(c.language_names().len(), 2);
    assert_eq!(c.get("ststst").unwrap().name, "StackStackStack");
}

#[test]
fn external_interpreter_from_config() {
    let c = sample();
    let id = "ststst".to_string();
    assert_eq!(ExternalInterpreter::with_language_id(&c, Some(&id)).exe_path, "/bin/ststst");
    let missing = "none".to_string();
    assert_eq!(ExternalInterpreter::with_language_id(&c, Some(&missing)).exe_path, "");
    assert_eq!(ExternalInterpreter::with_language_id(&c, None).exe_path, "");
    assert_eq!(ExternalInterpreter::new("x".to_string()).exe_path, "x");
}

#[test]
fn cloned_interpreter_is_equal() {
    let e = interp("A", "/a");
    let f = e.clone();
    assert_eq!(f.name, "A");
    assert_eq!(f.exe_path, "/a");
    assert_eq!(f.file_extensions, e.file_extensions);
}

#[test]
fn config_location_prefers_the_executable_dir() {
    assert_eq!(config_location(true, true), ConfigLocation::BesideExecutable);
    assert_eq!(config_location(true, false), ConfigLocation::BesideExecutable);
    assert_eq!(config_location(false, true), ConfigLocation::PackageDir);
    assert_eq!(config_location(false, false), ConfigLocation::WorkingDir);
}

#[test]
fn every_offered_language_looks_up_its_interpreter() {
    let c = sample();
    for (id, name) in c.available_languages() {
        assert_eq!(c.get(&id).unwrap().name, name);
    }
}
