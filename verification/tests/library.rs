use proj::args::{Command, Go, New, Setup};
use proj::command::{build_command, substitutions, BuildCmdArgs};
use proj::config::{config_from_text, Config, ConfigKey};
use proj::errors::{new_config, new_raw, Error};
use proj::handlers::{
    handle_go, handle_go_new, handle_new, handle_open, handle_open_new, needs_default_base_dir,
    render_output, run_command, Output,
};
use proj::state::{ProjStateObj, State};
use proj::text::{int_to_string, join_path};
use proj::value::{value_to_string, TomlValue};

const HOME: &str = "/home/user/Documents";
const CWD: &str = "/work/here";

fn parse(text: &str) -> Result<Config, Error> {
    config_from_text(text)
}

fn config(text: &str) -> Config {
    parse(text).unwrap()
}

fn config_error(text: &str) -> String {
    match parse(text) {
        Err(Error::Config(m)) => m,
        Err(e) => panic!("unexpected error {}", e.to_text()),
        Ok(_) => panic!("config parsed"),
    }
}

fn project(proj: &str, language: &str, base_dir: &str) -> ProjStateObj {
    ProjStateObj { proj: proj.into(), language: language.into(), base_dir: base_dir.into() }
}

fn state(projects: Vec<ProjStateObj>) -> State {
    State { path: "/tmp/state.cbor".into(), projects }
}

fn go(lang_or_name: Option<&str>, name: Option<&str>, lang: bool, var: Option<&str>) -> Go {
    Go {
        lang_or_name: lang_or_name.map(String::from),
        name: name.map(String::from),
        lang,
        var: var.map(String::from),
    }
}

fn new_here(lang: &str, name: &str) -> New {
    New { here: true, ..new(lang, name, None) }
}

fn new(lang: &str, name: &str, var: Option<&str>) -> New {
    New {
        lang: lang.into(),
        name: name.into(),
        here: false,
        var: var.map(String::from),
        passthrough: vec![],
    }
}

fn output(r: Result<(proj::handlers::UpdateState, String), Error>) -> (String, String, String, String) {
    match r {
        Ok((u, s)) => (u.lang, u.name, u.base_dir, s),
        Err(e) => panic!("unexpected error {}", e.to_text()),
    }
}

fn raw_message(r: Result<(proj::handlers::UpdateState, String), Error>) -> String {
    match r {
        Err(Error::Raw(m)) => m,
        _ => panic!("expected a Raw error"),
    }
}

fn names(st: &State) -> Vec<(String, String)> {
    st.projects.iter().map(|p| (p.proj.clone(), p.language.clone())).collect()
}

// ---------------- text ----------------

#[test]
fn integers_render_in_decimal() {
    for i in [0i64, 7, 10, -105, 1234567890, i64::MIN, i64::MAX] {
        assert_eq!(int_to_string(i), i.to_string());
    }
}

#[test]
fn paths_join_as_std_joins_them() {
    for (base, part) in [
        ("/a", "b"),
        ("/a/", "b"),
        ("", "b"),
        ("/a", "/c"),
        ("/a", ""),
        ("a/b", "c/d"),
        ("/", "x"),
    ] {
        let expected = std::path::Path::new(base).join(part).to_string_lossy().to_string();
        assert_eq!(join_path(base, part), expected, "{base} + {part}");
    }
    assert_eq!(join_path("/a", "b"), "/a/b");
    assert_eq!(join_path("/a", "/c"), "/c");
}

// ---------------- values ----------------

#[test]
fn values_render() {
    assert_eq!(value_to_string(&TomlValue::Str("x".into()), false).unwrap(), "x");
    assert_eq!(value_to_string(&TomlValue::Str("x".into()), true).unwrap(), "\"x\"");
    assert_eq!(value_to_string(&TomlValue::Integer(-3), false).unwrap(), "-3");
    assert_eq!(value_to_string(&TomlValue::Float("1.5".into()), false).unwrap(), "1.5");
    assert_eq!(value_to_string(&TomlValue::Boolean(true), false).unwrap(), "true");
    assert_eq!(value_to_string(&TomlValue::Boolean(false), true).unwrap(), "false");
    assert_eq!(
        value_to_string(&TomlValue::Datetime("1979-05-27".into()), false).unwrap(),
        "1979-05-27"
    );
}

#[test]
fn arrays_render_with_quoted_items() {
    let v = TomlValue::Array(vec![
        TomlValue::Str("a".into()),
        TomlValue::Integer(1),
        TomlValue::Array(vec![TomlValue::Boolean(true)]),
    ]);
    assert_eq!(value_to_string(&v, false).unwrap(), "[\"a\",1,[true]]");
}

#[test]
fn empty_array_renders_as_closing_bracket() {
    assert_eq!(value_to_string(&TomlValue::Array(vec![]), false).unwrap(), "]");
}

#[test]
fn tables_do_not_render() {
    let msg = "invalid 'vars': 'vars' is not allowed to be a table";
    match value_to_string(&TomlValue::Table(vec![]), false) {
        Err(Error::Config(m)) => assert_eq!(m, msg),
        _ => panic!("expected a Config error"),
    }
    let v = TomlValue::Array(vec![TomlValue::Integer(1), TomlValue::Table(vec![])]);
    match value_to_string(&v, false) {
        Err(Error::Config(m)) => assert_eq!(m, msg),
        _ => panic!("expected a Config error"),
    }
}

#[test]
fn type_names() {
    assert_eq!(TomlValue::Str("".into()).type_str(), "string");
    assert_eq!(TomlValue::Integer(0).type_str(), "integer");
    assert_eq!(TomlValue::Float("0".into()).type_str(), "float");
    assert_eq!(TomlValue::Boolean(true).type_str(), "boolean");
    assert_eq!(TomlValue::Datetime("".into()).type_str(), "datetime");
    assert_eq!(TomlValue::Array(vec![]).type_str(), "array");
    assert_eq!(TomlValue::Table(vec![]).type_str(), "table");
}

// ---------------- errors ----------------

#[test]
fn error_texts() {
    assert_eq!(new_config("bad".into()).to_text(), "Config Error: bad");
    assert_eq!(new_raw("just this".into()).to_text(), "just this");
    assert_eq!(new_config("x".into()).string_name(), "Config");
    let io = std::io::Error::new(std::io::ErrorKind::NotFound, "gone");
    let e = proj::errors::new_io("reading config: ".into(), io);
    assert_eq!(e.string_name(), "Io");
    assert_eq!(e.to_text(), "Io Error: reading config: gone");
    let parse_err = "x = ".parse::<toml::Table>().unwrap_err();
    let shown = parse_err.to_string();
    let e = proj::errors::new_config_parse("parsing config toml: ".into(), parse_err);
    assert_eq!(e.to_text(), format!("ConfigParse Error: parsing config toml: {}", shown));
}

// ---------------- config ----------------

#[test]
fn config_rejects_non_string_fields() {
    assert_eq!(
        config_error("base_dir = 3"),
        "Malformed Config: Invalid type integer for key base_dir"
    );
    assert_eq!(
        config_error("go = [\"a\"]"),
        "Malformed Config: Invalid type array for key go"
    );
    assert_eq!(
        config_error("[rust]\nopen = true"),
        "Malformed Config: Invalid type boolean for key open"
    );
}

#[test]
fn config_rejects_vars_that_are_not_tables() {
    assert_eq!(config_error("vars = 1"), "parsing config: 'vars' must be a table");
}

#[test]
fn config_rejects_unknown_keys() {
    assert_eq!(config_error("colour = \"red\""), "parsing config: Unkown key 'colour' in config");
    assert_eq!(
        config_error("[rust]\nshell = 1"),
        "parsing config: Unkown key 'shell' in config"
    );
}

#[test]
fn reserved_names_are_fields_not_tables() {
    assert_eq!(
        parse("[go]\nbase_dir = \"/go\"").err().map(|e| e.to_text()),
        Some("Config Error: Malformed Config: Invalid type table for key go".to_string())
    );
}

#[test]
fn field_errors_come_before_unknown_keys() {
    // 'a' comes first in the table, but the field is checked first
    assert_eq!(
        config_error("a = 1\nnew = 2"),
        "Malformed Config: Invalid type integer for key new"
    );
}

#[test]
fn variant_falls_back_to_root_language() {
    let cfg = config("[rust]\ngo = \"root-rust\"\n[junk.python]\ngo = \"junk-python\"");
    let junk = "junk".to_string();
    assert_eq!(cfg.go_cmd(&ConfigKey::new("rust", Some(&junk))), "root-rust");
    assert_eq!(cfg.go_cmd(&ConfigKey::new("python", Some(&junk))), "junk-python");
    let other = "other".to_string();
    assert_eq!(cfg.go_cmd(&ConfigKey::new("rust", Some(&other))), "root-rust");
    assert!(cfg.get_config(&ConfigKey::new("python", None)).is_none());
    assert!(cfg.get_config(&ConfigKey::new("rust", None)).is_some());
}

#[test]
fn base_dir_falls_back_to_root_then_default() {
    let cfg = config("base_dir = \"/root\"\n[rust]\n[python]\nbase_dir = \"/py\"");
    assert_eq!(cfg.base_dir(&ConfigKey::new("rust", None), HOME), "/root");
    assert_eq!(cfg.base_dir(&ConfigKey::new("python", None), HOME), "/py");
    let bare = config("[rust]");
    assert_eq!(bare.base_dir(&ConfigKey::new("rust", None), HOME), HOME);
}

#[test]
fn user_vars_are_not_inherited() {
    let cfg = config("vars.top = 1\n[rust]\ngo = \"g\"");
    assert!(cfg.user_vars(&ConfigKey::new("rust", None)).is_empty());
    assert_eq!(cfg.user_vars(&ConfigKey::new("python", None)).len(), 1);
}

// ---------------- commands ----------------

#[test]
fn placeholders_are_substituted() {
    let vars = vec![];
    let r = build_command(BuildCmdArgs {
        lang: "rust",
        name: "p",
        cmd: "cd '%{path}' # %{lang} %{name} %{base_dir}",
        vars: &vars,
        base_dir: "/b",
        parent: None,
    });
    assert_eq!(r.unwrap(), "cd '/b/rust/p' # rust p /b");
}

#[test]
fn user_variables_are_substituted() {
    let vars = vec![
        ("env".to_string(), TomlValue::Str(".env".into())),
        (
            "list".to_string(),
            TomlValue::Array(vec![TomlValue::Str("a".into()), TomlValue::Integer(1)]),
        ),
    ];
    let r = build_command(BuildCmdArgs {
        lang: "py",
        name: "q",
        cmd: "source %{env}; echo %{list}",
        vars: &vars,
        base_dir: "/b",
        parent: None,
    });
    assert_eq!(r.unwrap(), "source .env; echo [\"a\",1]");
}

#[test]
fn table_variables_are_refused() {
    let vars = vec![("t".to_string(), TomlValue::Table(vec![]))];
    let r = build_command(BuildCmdArgs {
        lang: "py",
        name: "q",
        cmd: "%{t}",
        vars: &vars,
        base_dir: "/b",
        parent: None,
    });
    assert!(matches!(r, Err(Error::Config(_))));
}

#[test]
fn templates_without_placeholders_are_unchanged() {
    let vars = vec![("env".to_string(), TomlValue::Str(".env".into()))];
    let r = build_command(BuildCmdArgs {
        lang: "rust",
        name: "p",
        cmd: "nvim .",
        vars: &vars,
        base_dir: "/b",
        parent: None,
    });
    assert_eq!(r.unwrap(), "nvim .");
}

#[test]
fn substitution_lists() {
    let vars = vec![("env".to_string(), TomlValue::Integer(2))];
    let (search, replace) = substitutions("rust", "p", "/b", None, &vars).unwrap();
    assert_eq!(search, vec!["%{lang}", "%{name}", "%{base_dir}", "%{path}", "%{env}"]);
    assert_eq!(replace, vec!["rust", "p", "/b", "/b/rust/p", "2"]);
}

#[test]
fn go_with_language_and_name_uses_config() {
    let cfg = config("base_dir = \"/src\"\n[rust]\ngo = \"cd %{path}\"");
    let mut st = state(vec![]);
    let r = handle_go(&cfg, &mut st, go(Some("rust"), Some("p"), false, None), HOME);
    assert_eq!(
        output(r),
        ("rust".into(), "p".into(), "/src".into(), "cd /src/rust/p".into())
    );
    assert!(st.projects.is_empty());
}

#[test]
fn go_with_language_uses_latest_project_of_language() {
    let cfg = config("[rust]");
    let mut st = state(vec![project("a", "py", "/x"), project("b", "rust", "/y")]);
    let r = handle_go(&cfg, &mut st, go(Some("rust"), None, true, None), HOME);
    assert_eq!(output(r), ("rust".into(), "b".into(), "/y".into(), "cd '/y/rust/b'".into()));
    let r = handle_go(&cfg, &mut st, go(Some("c"), None, true, None), HOME);
    assert_eq!(raw_message(r), "No stored projects for language c");
}

#[test]
fn go_with_name_uses_latest_project_of_name() {
    let cfg = config("[py]\ngo = \"%{lang}/%{name}\"");
    let mut st = state(vec![project("a", "py", "/x"), project("a", "rust", "/y")]);
    let r = handle_go(&cfg, &mut st, go(Some("a"), None, false, None), HOME);
    assert_eq!(output(r), ("py".into(), "a".into(), "/x".into(), "py/a".into()));
    let r = handle_go(&cfg, &mut st, go(Some("zz"), None, false, None), HOME);
    assert_eq!(raw_message(r), "No project named 'zz' found");
}

#[test]
fn go_without_arguments_uses_latest_project() {
    let cfg = config("open = \"code %{path}\"");
    let mut st = state(vec![project("a", "py", "/x"), project("b", "rust", "/y")]);
    let r = handle_open(&cfg, &mut st, go(None, None, false, None), HOME);
    assert_eq!(output(r), ("py".into(), "a".into(), "/x".into(), "code /x/py/a".into()));
    let mut empty = state(vec![]);
    let r = handle_go(&cfg, &mut empty, go(None, None, false, None), HOME);
    assert_eq!(raw_message(r), "No projects have been registered to go to");
}

#[test]
fn variants_select_their_commands() {
    let cfg = config("[work.rust]\nnew = \"cargo new %{path}\"\nbase_dir = \"/w\"");
    let mut st = state(vec![]);
    let r = handle_new(&cfg, &mut st, &new("rust", "p", Some("work")), HOME, CWD);
    assert_eq!(output(r), ("rust".into(), "p".into(), "/w".into(), "cargo new /w/rust/p".into()));
    let r = handle_new(&cfg, &mut st, &new("rust", "p", None), HOME, CWD);
    assert_eq!(
        output(r),
        ("rust".into(), "p".into(), HOME.into(), format!("mkdir '{HOME}/rust/p'"))
    );
}

#[test]
fn new_then_go_chains_both_commands() {
    let cfg = config("base_dir = \"/b\"");
    let mut st = state(vec![]);
    let r = handle_go_new(&cfg, &mut st, new("rust", "p", None), HOME, CWD);
    assert_eq!(
        output(r),
        ("rust".into(), "p".into(), "/b".into(), "{mkdir '/b/rust/p'\ncd '/b/rust/p'}".into())
    );
    let r = handle_open_new(&cfg, &mut st, new("rust", "p", None), HOME, CWD);
    assert_eq!(
        output(r),
        ("rust".into(), "p".into(), "/b".into(), "{mkdir '/b/rust/p'\nnvim .}".into())
    );
}

#[test]
fn running_a_command_records_the_project() {
    let cfg = config("base_dir = \"/b\"");
    let mut st = state(vec![project("a", "py", "/x")]);
    let out = run_command(&cfg, &mut st, Command::New(new("rust", "p", None)), HOME, CWD).unwrap();
    assert_eq!(out, "mkdir '/b/rust/p'");
    assert_eq!(names(&st), vec![("p".into(), "rust".into()), ("a".into(), "py".into())]);
    let out = run_command(&cfg, &mut st, Command::Go(go(Some("a"), None, false, None)), HOME, CWD)
        .unwrap();
    assert_eq!(out, "cd '/x/py/a'");
    assert_eq!(names(&st), vec![("a".into(), "py".into()), ("p".into(), "rust".into())]);
    assert_eq!(st.path, "/tmp/state.cbor");
}

#[test]
fn failing_commands_leave_the_record_alone() {
    let cfg = config("base_dir = \"/b\"");
    let mut st = state(vec![project("a", "py", "/x")]);
    let r = run_command(&cfg, &mut st, Command::Go(go(Some("zz"), None, false, None)), HOME, CWD);
    assert!(matches!(r, Err(Error::Raw(_))));
    let setup = Setup {
        generate_shell_script: None,
        with_executable: None,
        print_shell_script: false,
        place_config: false,
    };
    let r = run_command(&cfg, &mut st, Command::Setup(setup), HOME, CWD);
    assert!(matches!(r, Err(Error::Raw(_))));
    assert_eq!(names(&st), vec![("a".into(), "py".into())]);
}

#[test]
fn output_lines() {
    let plain = Output { string: "cd '/x'".into(), test: false };
    assert_eq!(render_output(&plain), "EXEC::cd '/x'");
    let test = Output { string: "cd '/x'\n".into(), test: true };
    assert_eq!(render_output(&test), "EXEC::echo 'cd \\'/x\\'\\n'");
}

// ---------------- arguments ----------------

#[test]
fn language_and_name_from_arguments() {
    let both = go(Some("rust"), Some("p"), false, None);
    assert_eq!(both.get_lang_name(), (Some(&"rust".to_string()), Some(&"p".to_string())));
    let lang = go(Some("rust"), None, true, None);
    assert_eq!(lang.get_lang_name(), (Some(&"rust".to_string()), None));
    let name = go(Some("p"), None, false, None);
    assert_eq!(name.get_lang_name(), (None, Some(&"p".to_string())));
    let none = go(None, None, true, None);
    assert_eq!(none.get_lang_name(), (None, None));
}

#[test]
fn go_from_new_names_both() {
    let g = Go::from(new("rust", "p", Some("v")));
    assert_eq!(g.get_lang_name(), (Some(&"rust".to_string()), Some(&"p".to_string())));
    assert_eq!(g.var, Some("v".to_string()));
    assert!(!g.lang);
}

// ---------------- state ----------------

#[test]
fn inserting_twice_is_inserting_once() {
    let mut st = state(vec![project("a", "py", "/x"), project("b", "rust", "/y")]);
    st.insert("b".into(), "rust".into(), "/other".into());
    st.insert("b".into(), "rust".into(), "/third".into());
    assert_eq!(names(&st), vec![("b".into(), "rust".into()), ("a".into(), "py".into())]);
    // the existing record keeps its base directory
    assert_eq!(st.projects[0].base_dir, "/y");
}

#[test]
fn inserting_keeps_the_order_of_the_others() {
    let mut st = state(vec![
        project("a", "py", "/x"),
        project("b", "rust", "/y"),
        project("c", "go", "/z"),
        project("d", "c", "/w"),
    ]);
    st.insert("c".into(), "go".into(), "/z".into());
    assert_eq!(
        names(&st),
        vec![
            ("c".into(), "go".into()),
            ("a".into(), "py".into()),
            ("b".into(), "rust".into()),
            ("d".into(), "c".into())
        ]
    );
    // same name, other language: a new record
    st.insert("a".into(), "rust".into(), "/v".into());
    assert_eq!(st.projects.len(), 5);
    assert_eq!(st.latest_by_lang("rust").unwrap().proj, "a");
    assert_eq!(st.latest_by_name("a").unwrap().language, "rust");
}

// ---------------- revision: here, default base dir, parsing ----------------

#[test]
fn new_here_makes_the_project_in_the_working_directory() {
    let cfg = config("base_dir = \"/b\"\nnew = \"mkdir %{path} # %{base_dir}\"");
    let mut st = state(vec![]);
    let r = handle_new(&cfg, &mut st, &new_here("rust", "p"), HOME, CWD);
    assert_eq!(
        output(r),
        ("rust".into(), "p".into(), "/b".into(), "mkdir /work/here/p # /b".into())
    );
    let r = handle_go_new(&cfg, &mut st, new_here("rust", "p"), HOME, CWD);
    assert_eq!(output(r).3, "{mkdir /work/here/p # /b\ncd '/work/here/p'}");
    let r = handle_new(&cfg, &mut st, &new("rust", "p", None), HOME, CWD);
    assert_eq!(output(r).3, "mkdir /b/rust/p # /b");
}

#[test]
fn default_base_dir_is_needed_only_without_a_configured_one() {
    let bare = config("[rust]");
    let given = config("[rust]\nbase_dir = \"/r\"");
    let named = |l: &str| Command::Go(go(Some(l), Some("p"), false, None));
    assert!(needs_default_base_dir(&bare, &named("rust")));
    assert!(!needs_default_base_dir(&given, &named("rust")));
    assert!(needs_default_base_dir(&given, &named("python")));
    assert!(!needs_default_base_dir(&bare, &Command::Go(go(Some("p"), None, false, None))));
    assert!(needs_default_base_dir(&bare, &Command::New(new("rust", "p", None))));
    assert!(!needs_default_base_dir(&given, &Command::GoNew(new("rust", "p", None))));
    // where it is not needed, the default makes no difference
    let mut st = state(vec![]);
    let a = run_command(&given, &mut st, named("rust"), "", CWD).unwrap();
    let mut st = state(vec![]);
    let b = run_command(&given, &mut st, named("rust"), HOME, CWD).unwrap();
    assert_eq!(a, b);
}

#[test]
fn unparsable_config_text_is_a_parse_error() {
    match parse("x = ") {
        Err(Error::ConfigParse(s, _)) => assert_eq!(s, "parsing config toml: "),
        _ => panic!("expected a ConfigParse error"),
    }
}

#[test]
fn config_text_values_keep_their_types() {
    let cfg = config("vars.a = 1.5\nvars.b = 1979-05-27\nvars.c = [1, \"x\"]\nvars.d = false");
    let vars = cfg.user_vars(&ConfigKey::new("none", None));
    let texts: Vec<(String, String)> = vars
        .iter()
        .map(|(k, v)| (k.clone(), value_to_string(v, false).unwrap()))
        .collect();
    assert_eq!(
        texts,
        vec![
            ("a".into(), "1.5".into()),
            ("b".into(), "1979-05-27".into()),
            ("c".into(), "[1,\"x\"]".into()),
            ("d".into(), "false".into())
        ]
    );
}

#[test]
fn error_text_ends_with_the_wrapped_text() {
    let e = new_config("bad".into());
    assert_eq!(e.compose_text(" and more"), "Config Error: bad and more");
    let e = new_raw("plain".into());
    assert_eq!(e.compose_text(""), "plain");
    let parse_err = "x = ".parse::<toml::Table>().unwrap_err();
    let shown = parse_err.to_string();
    let e = proj::errors::new_config_parse("p: ".into(), parse_err);
    assert_eq!(e.to_text(), e.compose_text(&shown));
}

#[test]
fn escaping_follows_char_escape_default() {
    let out = Output { string: "tab\there \"q\" \\ é\u{1}".into(), test: true };
    assert_eq!(
        render_output(&out),
        "EXEC::echo 'tab\\there \\\"q\\\" \\\\ \\u{e9}\\u{1}'"
    );
}
