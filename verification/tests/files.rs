use proj::config::{config_from_text, Config, ConfigKey};
use proj::constants::{GO_DEFAULT, OPEN_DEFAULT};
use proj::state::{ProjStateObj, State};
use proj::value::TomlValue;

fn config_from_valid_table() -> Config {
    config_from_text(
        r#"
            base_dir = "/root/Documents"
            new = "root-new"

            [rust]
            go = "rust-go"
            open = "rust-open"

            [junk.rust]
            base_dir = "/junk/Documents"
            new = "junk-new"

            [python]
            vars.env = ".env"
            new = "python-new"
        "#,
    )
    .unwrap()
}

fn project(proj: &str, language: &str, base_dir: &str) -> ProjStateObj {
    ProjStateObj {
        proj: proj.into(),
        language: language.into(),
        base_dir: base_dir.into(),
    }
}

#[test]
fn get_config_basic_language() {
    let cfg = config_from_valid_table();

    let key = ConfigKey::new("rust", None);
    let go = cfg.go_cmd(&key);

    assert_eq!(go, "rust-go");
}

#[test]
fn get_config_nested_variant() {
    let cfg = config_from_valid_table();

    let variant = "junk".to_string();
    let key = ConfigKey::new("rust", Some(&variant));

    let new_cmd = cfg.new_cmd(&key);
    let base_dir = cfg.base_dir(&key, "/home/user/Documents");

    assert_eq!(new_cmd, "junk-new");
    assert_eq!(base_dir, "/junk/Documents");
}

#[test]
fn fallback_to_parent_config() {
    let cfg = config_from_valid_table();

    let key = ConfigKey::new("rust", None);

    // rust has no `new`, should fallback to root
    assert_eq!(cfg.new_cmd(&key), "root-new");
}

#[test]
fn fallback_to_defaults() {
    let cfg = config_from_valid_table();

    let key = ConfigKey::new("nonexistent", None);

    assert_eq!(cfg.go_cmd(&key), GO_DEFAULT);
    assert_eq!(cfg.open_cmd(&key), OPEN_DEFAULT);
}

#[test]
fn user_vars_are_loaded() {
    let cfg = config_from_valid_table();

    let key = ConfigKey::new("python", None);
    let vars = cfg.user_vars(&key);

    let env = vars.iter().find(|(k, _)| k == "env").map(|(_, v)| v);
    assert!(matches!(env, Some(TomlValue::Str(s)) if s == ".env"));
}

// ---------------- STATE TESTS ----------------

#[test]
fn state_insert_new_goes_to_front() {
    let mut state = State {
        path: String::new(),
        projects: vec![project("a", "rust", "/a")],
    };

    state.insert("proj1".into(), "rust".into(), "/a".into());

    assert_eq!(state.projects.len(), 2);
    assert_eq!(state.projects[0].proj, "proj1");
}

#[test]
fn state_insert_existing_moves_to_front() {
    let mut state = State {
        path: String::new(),
        projects: vec![project("a", "rust", "/a"), project("b", "rust", "/b")],
    };

    state.insert("b".into(), "rust".into(), "/b".into());

    assert_eq!(state.projects.len(), 2);
    assert_eq!(state.projects[0].proj, "b");
}

#[test]
fn latest_returns_first() {
    let state = State {
        path: String::new(),
        projects: vec![project("a", "rust", "/a"), project("b", "python", "/b")],
    };

    assert_eq!(state.latest().unwrap().proj, "a");
}

#[test]
fn latest_by_lang() {
    let state = State {
        path: String::new(),
        projects: vec![project("a", "rust", "/a"), project("b", "python", "/b")],
    };

    assert_eq!(state.latest_by_lang("python").unwrap().proj, "b");
}

#[test]
fn latest_by_name() {
    let state = State {
        path: String::new(),
        projects: vec![project("a", "rust", "/a"), project("b", "python", "/b")],
    };

    assert_eq!(state.latest_by_name("a").unwrap().language, "rust");
}
