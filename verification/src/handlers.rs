//! The subcommands: which project each addresses, which command template
//! it uses, and what the switcher hands back and records.

use vstd::prelude::*;

use crate::args::{Command, Go, New};
use crate::command::{
    build_command, built_command, opt_str, replacements, reports, search_patterns, vars_renderable,
    BuildCmdArgs, CommandFailure,
};
use crate::external::{matcher_builds, replaced_text};
use crate::config::{field_text, Config, ConfigKey};
use crate::errors::{new_raw, Error};
use crate::external::{escape_default, escaped_text};
use crate::text::joined_path;
use crate::state::{
    found_project, has_language, has_name, inserted, law_insert_then_latest, ProjStateObj, State,
};

verus! {

/// Contains all information needed to update state
pub struct UpdateState {
    pub lang: String,
    pub name: String,
    pub base_dir: String,
}

/// Output string and if this is a test run
pub struct Output {
    pub string: String,
    pub test: bool,
}

/// Which command template a 'go'-like subcommand uses.
pub enum Template {
    Go,
    Open,
}

/// A project as the handlers see it: (language, name, base directory).
pub type Target = (Seq<char>, Seq<char>, Seq<char>);

/// The template that `which` selects for a language and variant.
pub open spec fn template_at(
    cfg: Config,
    which: Template,
    lang: Seq<char>,
    variant: Option<Seq<char>>,
) -> Seq<char> {
    match which {
        Template::Go => cfg.go_cmd_at(lang, variant),
        Template::Open => cfg.open_cmd_at(lang, variant),
    }
}

/// The project that a 'go' or 'open' addresses, or the message of the
/// error when the recorded projects hold none that fits:
/// - language and name given: that project, under the configured base
///   directory;
/// - language only: the latest project of that language;
/// - name only: the latest project of that name;
/// - neither: the latest project.
pub open spec fn go_target(
    cfg: Config,
    ps: Seq<ProjStateObj>,
    lang: Option<String>,
    name: Option<String>,
    variant: Option<Seq<char>>,
    home: Seq<char>,
) -> Result<Target, Seq<char>> {
    match (lang, name) {
        (Some(l), Some(n)) => Ok((l@, n@, cfg.base_dir_at(l@, variant, home))),
        (Some(l), None) => match found_project(ps, has_language(l@)) {
            Some(p) => Ok((l@, p.proj@, p.base_dir@)),
            None => Err("No stored projects for language "@ + l@),
        },
        (None, Some(n)) => match found_project(ps, has_name(n@)) {
            Some(p) => Ok((p.language@, n@, p.base_dir@)),
            None => Err("No project named '"@ + n@ + "' found"@),
        },
        (None, None) => if ps.len() > 0 {
            Ok((ps[0].language@, ps[0].proj@, ps[0].base_dir@))
        } else {
            Err("No projects have been registered to go to"@)
        },
    }
}

/// The command for a project with the template of `which`, or the failure.
pub open spec fn command_for(
    cfg: Config,
    t: Target,
    template: Seq<char>,
    variant: Option<Seq<char>>,
    parent: Option<Seq<char>>,
) -> Result<(Target, Seq<char>), CommandFailure> {
    match built_command(t.0, t.1, template, cfg.vars_at(t.0, variant), t.2, parent) {
        Ok(out) => Ok((t, out)),
        Err(f) => Err(f),
    }
}

/// What a 'go' or 'open' hands back: the project to record and the command.
pub open spec fn go_outcome(
    cfg: Config,
    ps: Seq<ProjStateObj>,
    cmd: Go,
    which: Template,
    home: Seq<char>,
) -> Result<(Target, Seq<char>), CommandFailure> {
    let variant = field_text(cmd.var);
    match go_target(cfg, ps, cmd.lang_name().0, cmd.lang_name().1, variant, home) {
        Err(m) => Err(CommandFailure::Raw(m)),
        Ok(t) => command_for(cfg, t, template_at(cfg, which, t.0, variant), variant, None),
    }
}

/// The project that a 'new' addresses: its language and name, under the
/// configured base directory.
pub open spec fn new_target(cfg: Config, cmd: New, home: Seq<char>) -> Target {
    (cmd.lang@, cmd.name@, cfg.base_dir_at(cmd.lang@, field_text(cmd.var), home))
}

/// Where a 'new' makes the project: in the working directory `cwd` when
/// `here` is set, else under the base directory and the language.
pub open spec fn new_parent(cmd: New, cwd: Seq<char>) -> Option<Seq<char>> {
    if cmd.here {
        Some(cwd)
    } else {
        None
    }
}

/// What a 'new' hands back: the new project, and the configured 'new'
/// command for it, whose project path is `cwd`/name when `here` is set.
pub open spec fn new_outcome(cfg: Config, cmd: New, home: Seq<char>, cwd: Seq<char>) -> Result<
    (Target, Seq<char>),
    CommandFailure,
> {
    let variant = field_text(cmd.var);
    command_for(
        cfg,
        new_target(cfg, cmd, home),
        cfg.new_cmd_at(cmd.lang@, variant),
        variant,
        new_parent(cmd, cwd),
    )
}

/// What the 'go' or 'open' that follows a 'new' hands back: the command of
/// `which` for the project that the 'new' made, at the same path.
pub open spec fn follow_outcome(
    cfg: Config,
    cmd: New,
    which: Template,
    home: Seq<char>,
    cwd: Seq<char>,
) -> Result<(Target, Seq<char>), CommandFailure> {
    let variant = field_text(cmd.var);
    command_for(
        cfg,
        new_target(cfg, cmd, home),
        template_at(cfg, which, cmd.lang@, variant),
        variant,
        new_parent(cmd, cwd),
    )
}

/// Two commands run one after the other: "{first\nsecond}".
pub open spec fn chained(first: Seq<char>, second: Seq<char>) -> Seq<char> {
    "{"@ + first + "\n"@ + second + "}"@
}

/// What a 'new' followed by `then` hands back: the new project, and both
/// commands chained; or the first failure.
pub open spec fn then_outcome(
    first: Result<(Target, Seq<char>), CommandFailure>,
    second: Result<(Target, Seq<char>), CommandFailure>,
) -> Result<(Target, Seq<char>), CommandFailure> {
    match first {
        Err(f) => Err(f),
        Ok((t, a)) => match second {
            Err(f) => Err(f),
            Ok((_, b)) => Ok((t, chained(a, b))),
        },
    }
}

/// Whether a handler's result is the outcome `o`.
pub open spec fn gives(r: Result<(UpdateState, String), Error>, o: Result<(Target, Seq<char>), CommandFailure>) -> bool {
    match o {
        Ok((t, out)) => r matches Ok((u, s)) && u.lang@ == t.0 && u.name@ == t.1 && u.base_dir@
            == t.2 && s@ == out,
        Err(f) => r matches Err(e) && reports(e, f),
    }
}

/// Records the project of `args` and builds its command.
fn finish(args: BuildCmdArgs) -> (r: Result<(UpdateState, String), Error>)
    ensures
        gives(
            r,
            match built_command(
                args.lang@,
                args.name@,
                args.cmd@,
                args.vars@,
                args.base_dir@,
                opt_str(args.parent),
            ) {
                Ok(out) => Ok(((args.lang@, args.name@, args.base_dir@), out)),
                Err(f) => Err(f),
            },
        ),
{
    let update = UpdateState {
        lang: String::from_str(args.lang),
        name: String::from_str(args.name),
        base_dir: String::from_str(args.base_dir),
    };
    match build_command(args) {
        Ok(s) => Ok((update, s)),
        Err(e) => Err(e),
    }
}

/// The template of `which` for `key`.
fn template<'a>(cfg: &'a Config, which: &Template, key: &ConfigKey) -> (r: &'a str)
    ensures
        r@ == template_at(*cfg, *which, key.lang(), key.variant_text()),
{
    match which {
        Template::Go => cfg.go_cmd(key),
        Template::Open => cfg.open_cmd(key),
    }
}

/// Returns values needed to update state, and the output string, for the
/// 'go' and 'open' subcommands.
pub fn get_go_cmd_build_cmd_args(
    cfg: &Config,
    which: Template,
    st: &mut State,
    cmd: Go,
    home: &str,
) -> (r: Result<(UpdateState, String), Error>)
    requires
        cmd.well_formed(),
    ensures
        *final(st) == *old(st),
        gives(r, go_outcome(*cfg, old(st).projects@, cmd, which, home@)),
{
    let ghost variant = field_text(cmd.var);
    // get language, project name. Language, Project name, or both, may be None
    let (lang, name) = cmd.get_lang_name();
    match (lang, name) {
        // Both have been supplied. build key and get information from config
        (Some(lang), Some(name)) => {
            let key = ConfigKey::new(lang.as_str(), cmd.var.as_ref());
            let args = BuildCmdArgs {
                lang: lang.as_str(),
                name: name.as_str(),
                cmd: template(cfg, &which, &key),
                vars: cfg.user_vars(&key),
                base_dir: cfg.base_dir(&key, home),
                parent: None,
            };
            finish(args)
        },
        // Only language has been supplied. We can build the key, but also
        // need to get project name from state
        (Some(lang), None) => {
            let key = ConfigKey::new(lang.as_str(), cmd.var.as_ref());
            let pso = match st.latest_by_lang(lang.as_str()) {
                Some(p) => p,
                None => {
                    let mut m = String::from_str("No stored projects for language ");
                    m.append(lang.as_str());
                    return Err(new_raw(m));
                },
            };
            let args = BuildCmdArgs {
                lang: lang.as_str(),
                name: pso.proj.as_str(),
                cmd: template(cfg, &which, &key),
                vars: cfg.user_vars(&key),
                base_dir: pso.base_dir.as_str(),
                parent: None,
            };
            finish(args)
        },
        // Only project name has been supplied. Get language from state and
        // then build key
        (None, Some(name)) => {
            let pso = match st.latest_by_name(name.as_str()) {
                Some(p) => p,
                None => {
                    let mut m = String::from_str("No project named '");
                    m.append(name.as_str());
                    m.append("' found");
                    return Err(new_raw(m));
                },
            };
            let key = ConfigKey::new(pso.language.as_str(), cmd.var.as_ref());
            let args = BuildCmdArgs {
                lang: pso.language.as_str(),
                name: name.as_str(),
                cmd: template(cfg, &which, &key),
                vars: cfg.user_vars(&key),
                base_dir: pso.base_dir.as_str(),
                parent: None,
            };
            finish(args)
        },
        // Nothing has been supplied. Use last project from state
        (None, None) => {
            let pso = match st.latest() {
                Some(p) => p,
                None => {
                    return Err(new_raw(String::from_str("No projects have been registered to go to")));
                },
            };
            let key = ConfigKey::new(pso.language.as_str(), cmd.var.as_ref());
            let args = BuildCmdArgs {
                lang: pso.language.as_str(),
                name: pso.proj.as_str(),
                cmd: template(cfg, &which, &key),
                vars: cfg.user_vars(&key),
                base_dir: pso.base_dir.as_str(),
                parent: None,
            };
            finish(args)
        },
    }
}

/// Returns values needed to update state, and output string for the 'go'
/// subcommand
pub fn handle_go(cfg: &Config, st: &mut State, cmd: Go, home: &str) -> (r: Result<
    (UpdateState, String),
    Error,
>)
    requires
        cmd.well_formed(),
    ensures
        *final(st) == *old(st),
        gives(r, go_outcome(*cfg, old(st).projects@, cmd, Template::Go, home@)),
{
    get_go_cmd_build_cmd_args(cfg, Template::Go, st, cmd, home)
}

/// Returns values needed to update state, and output string for the 'open'
/// subcommand
pub fn handle_open(cfg: &Config, st: &mut State, cmd: Go, home: &str) -> (r: Result<
    (UpdateState, String),
    Error,
>)
    requires
        cmd.well_formed(),
    ensures
        *final(st) == *old(st),
        gives(r, go_outcome(*cfg, old(st).projects@, cmd, Template::Open, home@)),
{
    get_go_cmd_build_cmd_args(cfg, Template::Open, st, cmd, home)
}

/// Returns values needed to update state, and output string for the 'new'
/// subcommand. With `here` set the project is made in the working
/// directory `cwd` instead of under its language; the project is still
/// recorded under the configured base directory, so a later 'go' to it
/// resolves base_dir/lang/name, not the working directory.
pub fn handle_new(cfg: &Config, st: &mut State, cmd: &New, home: &str, cwd: &str) -> (r: Result<
    (UpdateState, String),
    Error,
>)
    ensures
        *final(st) == *old(st),
        gives(r, new_outcome(*cfg, *cmd, home@, cwd@)),
{
    let key = ConfigKey::new(cmd.lang.as_str(), cmd.var.as_ref());
    let args = BuildCmdArgs {
        lang: cmd.lang.as_str(),
        name: cmd.name.as_str(),
        cmd: cfg.new_cmd(&key),
        vars: cfg.user_vars(&key),
        base_dir: cfg.base_dir(&key, home),
        parent: if cmd.here {
            Some(cwd)
        } else {
            None
        },
    };
    finish(args)
}

/// Joins two commands as "{first\nsecond}".
fn chain(first: String, second: &str) -> (r: String)
    ensures
        r@ == chained(first@, second@),
{
    let mut r = String::from_str("{");
    r.append(first.as_str());
    r.append("\n");
    r.append(second);
    r.append("}");
    r
}

/// The 'new' subcommand followed by 'go' or 'open' on the new project.
fn handle_new_then(
    cfg: &Config,
    st: &mut State,
    cmd: New,
    which: Template,
    home: &str,
    cwd: &str,
) -> (r: Result<(UpdateState, String), Error>)
    ensures
        *final(st) == *old(st),
        gives(
            r,
            then_outcome(
                new_outcome(*cfg, cmd, home@, cwd@),
                follow_outcome(*cfg, cmd, which, home@, cwd@),
            ),
        ),
{
    let (update_state, output) = match handle_new(cfg, st, &cmd, home, cwd) {
        Ok(p) => p,
        Err(e) => {
            return Err(e);
        },
    };
    let key = ConfigKey::new(cmd.lang.as_str(), cmd.var.as_ref());
    let args = BuildCmdArgs {
        lang: cmd.lang.as_str(),
        name: cmd.name.as_str(),
        cmd: template(cfg, &which, &key),
        vars: cfg.user_vars(&key),
        base_dir: cfg.base_dir(&key, home),
        parent: if cmd.here {
            Some(cwd)
        } else {
            None
        },
    };
    let (_, second) = match finish(args) {
        Ok(p) => p,
        Err(e) => {
            return Err(e);
        },
    };
    Ok((update_state, chain(output, second.as_str())))
}

/// Returns values needed to update state, and output string for the
/// 'go-new' subcommand
pub fn handle_go_new(cfg: &Config, st: &mut State, cmd: New, home: &str, cwd: &str) -> (r:
    Result<(UpdateState, String), Error>)
    ensures
        *final(st) == *old(st),
        gives(
            r,
            then_outcome(
                new_outcome(*cfg, cmd, home@, cwd@),
                follow_outcome(*cfg, cmd, Template::Go, home@, cwd@),
            ),
        ),
{
    handle_new_then(cfg, st, cmd, Template::Go, home, cwd)
}

/// Returns values needed to update state, and output string for the
/// 'open-new' subcommand
pub fn handle_open_new(cfg: &Config, st: &mut State, cmd: New, home: &str, cwd: &str) -> (r:
    Result<(UpdateState, String), Error>)
    ensures
        *final(st) == *old(st),
        gives(
            r,
            then_outcome(
                new_outcome(*cfg, cmd, home@, cwd@),
                follow_outcome(*cfg, cmd, Template::Open, home@, cwd@),
            ),
        ),
{
    handle_new_then(cfg, st, cmd, Template::Open, home, cwd)
}

/// Without `here`, the 'go' or 'open' that follows a 'new' in 'go-new' and
/// 'open-new' is the 'go' or 'open' of the same language and name, which
/// addresses the project that the 'new' created whatever the recorded
/// projects are; with `here`, both commands use the project's path in the
/// working directory.
pub proof fn law_new_then_go_same_project(
    cfg: Config,
    ps: Seq<ProjStateObj>,
    cmd: New,
    which: Template,
    home: Seq<char>,
    cwd: Seq<char>,
)
    ensures
        !cmd.here ==> follow_outcome(cfg, cmd, which, home, cwd) == go_outcome(
            cfg,
            ps,
            <Go as vstd::std_specs::convert::FromSpec<New>>::from_spec(cmd),
            which,
            home,
        ),
        follow_outcome(cfg, cmd, which, home, cwd) matches Ok((t, _)) ==> t == new_target(
            cfg,
            cmd,
            home,
        ),
        new_outcome(cfg, cmd, home, cwd) matches Ok((t, _)) ==> t == new_target(cfg, cmd, home),
{
}

/// The project that a 'go' or 'open' with these arguments addresses:
/// language and name as given, under the configured base directory; with
/// the language only (`lang` set), the latest project of that language;
/// with a name only, the latest project of that name; with neither, the
/// latest project; none where no recorded project fits.
pub open spec fn addressed_project(
    cfg: Config,
    ps: Seq<ProjStateObj>,
    g: Go,
    home: Seq<char>,
) -> Option<Target> {
    let v = field_text(g.var);
    if g.lang_or_name is Some && g.name is Some {
        Some((g.lang_or_name->0@, g.name->0@, cfg.base_dir_at(g.lang_or_name->0@, v, home)))
    } else if g.lang_or_name is Some && g.lang {
        match found_project(ps, has_language(g.lang_or_name->0@)) {
            Some(p) => Some((g.lang_or_name->0@, p.proj@, p.base_dir@)),
            None => None,
        }
    } else if g.lang_or_name is Some {
        match found_project(ps, has_name(g.lang_or_name->0@)) {
            Some(p) => Some((p.language@, g.lang_or_name->0@, p.base_dir@)),
            None => None,
        }
    } else if ps.len() > 0 {
        Some((ps[0].language@, ps[0].proj@, ps[0].base_dir@))
    } else {
        None
    }
}

/// 'go' and 'open' address the same project, and build their commands
/// from the 'go' and the 'open' template respectively, of that project's
/// language under the variant given on the command line, with that
/// language's user variables; the project path is base_dir/lang/name.
/// They fail with a `Raw` error exactly when no project fits, and
/// otherwise succeed exactly when the variables render and the matcher
/// takes the placeholders.
pub proof fn law_go_and_open(
    cfg: Config,
    ps: Seq<ProjStateObj>,
    g: Go,
    home: Seq<char>,
    cwd: Seq<char>,
)
    requires
        g.well_formed(),
    ensures
        ({
            let v = field_text(g.var);
            let go = command_outcome(cfg, ps, Command::Go(g), home, cwd);
            let open = command_outcome(cfg, ps, Command::Open(g), home, cwd);
            match addressed_project(cfg, ps, g, home) {
                None => go matches Err(CommandFailure::Raw(_)) && open matches Err(
                    CommandFailure::Raw(_),
                ),
                Some(t) => {
                    let vars = cfg.vars_at(t.0, v);
                    let pats = search_patterns(vars);
                    let reps = replacements(t.0, t.1, t.2, None, vars);
                    &&& go is Ok <==> (vars_renderable(vars) && matcher_builds(pats))
                    &&& open is Ok <==> (vars_renderable(vars) && matcher_builds(pats))
                    &&& go is Ok ==> go == Ok::<(Target, Seq<char>), CommandFailure>(
                        (t, replaced_text(pats, reps, cfg.go_cmd_at(t.0, v))),
                    )
                    &&& open is Ok ==> open == Ok::<(Target, Seq<char>), CommandFailure>(
                        (t, replaced_text(pats, reps, cfg.open_cmd_at(t.0, v))),
                    )
                    &&& reps[3] == joined_path(joined_path(t.2, t.0), t.1)
                },
            }
        }),
{
}

/// 'new' builds the configured 'new' command for the named project under
/// the variant given, with the project path in the working directory when
/// `here` is set; 'go-new' and 'open-new' chain it, as "{new\nsecond}",
/// with the 'go' or the 'open' command of the same project at the same
/// path. All three succeed exactly when the variables render and the
/// matcher takes the placeholders, whatever the recorded projects are.
pub proof fn law_new_commands(
    cfg: Config,
    ps: Seq<ProjStateObj>,
    n: New,
    home: Seq<char>,
    cwd: Seq<char>,
)
    ensures
        ({
            let v = field_text(n.var);
            let t = (n.lang@, n.name@, cfg.base_dir_at(n.lang@, v, home));
            let parent = if n.here {
                Some(cwd)
            } else {
                None::<Seq<char>>
            };
            let vars = cfg.vars_at(n.lang@, v);
            let pats = search_patterns(vars);
            let reps = replacements(t.0, t.1, t.2, parent, vars);
            let ok = vars_renderable(vars) && matcher_builds(pats);
            let made = replaced_text(pats, reps, cfg.new_cmd_at(n.lang@, v));
            let went = replaced_text(pats, reps, cfg.go_cmd_at(n.lang@, v));
            let opened = replaced_text(pats, reps, cfg.open_cmd_at(n.lang@, v));
            let new = command_outcome(cfg, ps, Command::New(n), home, cwd);
            let go_new = command_outcome(cfg, ps, Command::GoNew(n), home, cwd);
            let open_new = command_outcome(cfg, ps, Command::OpenNew(n), home, cwd);
            &&& new is Ok <==> ok
            &&& go_new is Ok <==> ok
            &&& open_new is Ok <==> ok
            &&& ok ==> new == Ok::<(Target, Seq<char>), CommandFailure>((t, made))
            &&& ok ==> go_new == Ok::<(Target, Seq<char>), CommandFailure>(
                (t, "{"@ + made + "\n"@ + went + "}"@),
            )
            &&& ok ==> open_new == Ok::<(Target, Seq<char>), CommandFailure>(
                (t, "{"@ + made + "\n"@ + opened + "}"@),
            )
            &&& n.here ==> reps[3] == joined_path(cwd, n.name@)
            &&& !n.here ==> reps[3] == joined_path(joined_path(t.2, t.0), t.1)
        }),
{
}

/// The message for the 'setup' subcommand, which has nothing to run.
pub open spec fn setup_message() -> Seq<char> {
    "the 'setup' subcommand is not available"@
}

/// Whether the 'go' arguments of a command, if it has any, are well formed.
pub open spec fn command_well_formed(command: Command) -> bool {
    match command {
        Command::Go(g) => g.well_formed(),
        Command::Open(g) => g.well_formed(),
        _ => true,
    }
}

/// What a subcommand hands back: the project to record and the command.
pub open spec fn command_outcome(
    cfg: Config,
    ps: Seq<ProjStateObj>,
    command: Command,
    home: Seq<char>,
    cwd: Seq<char>,
) -> Result<(Target, Seq<char>), CommandFailure> {
    match command {
        Command::Go(g) => go_outcome(cfg, ps, g, Template::Go, home),
        Command::Open(g) => go_outcome(cfg, ps, g, Template::Open, home),
        Command::New(n) => new_outcome(cfg, n, home, cwd),
        Command::GoNew(n) => then_outcome(
            new_outcome(cfg, n, home, cwd),
            follow_outcome(cfg, n, Template::Go, home, cwd),
        ),
        Command::OpenNew(n) => then_outcome(
            new_outcome(cfg, n, home, cwd),
            follow_outcome(cfg, n, Template::Open, home, cwd),
        ),
        Command::Setup(_) => Err(CommandFailure::Raw(setup_message())),
    }
}

/// Whether the configuration gives a base directory for a language and
/// variant, in the selected table or at the root.
pub open spec fn config_gives_base_dir(cfg: Config, lang: Seq<char>, variant: Option<Seq<char>>) -> bool {
    (cfg.resolve(lang, variant) matches Some(c) && c.own_base_dir() is Some)
        || cfg.own_base_dir() is Some
}

/// Whether a subcommand falls back on the default base directory: it
/// names its project by language and name, and the configuration gives no
/// base directory for it.
pub open spec fn uses_default_base_dir(cfg: Config, command: Command) -> bool {
    match command {
        Command::Go(g) => g.lang_name().0 is Some && g.lang_name().1 is Some
            && !config_gives_base_dir(cfg, g.lang_name().0->0@, field_text(g.var)),
        Command::Open(g) => g.lang_name().0 is Some && g.lang_name().1 is Some
            && !config_gives_base_dir(cfg, g.lang_name().0->0@, field_text(g.var)),
        Command::New(n) => !config_gives_base_dir(cfg, n.lang@, field_text(n.var)),
        Command::GoNew(n) => !config_gives_base_dir(cfg, n.lang@, field_text(n.var)),
        Command::OpenNew(n) => !config_gives_base_dir(cfg, n.lang@, field_text(n.var)),
        Command::Setup(_) => false,
    }
}

/// Whether running `command` falls back on the default base directory, so
/// that the default must be known.
pub fn needs_default_base_dir(cfg: &Config, command: &Command) -> (r: bool)
    requires
        command_well_formed(*command),
    ensures
        r == uses_default_base_dir(*cfg, *command),
{
    match command {
        Command::Go(g) | Command::Open(g) => match g.get_lang_name() {
            (Some(lang), Some(_)) => {
                let key = ConfigKey::new(lang.as_str(), g.var.as_ref());
                !cfg.gives_base_dir(&key)
            },
            _ => false,
        },
        Command::New(n) | Command::GoNew(n) | Command::OpenNew(n) => {
            let key = ConfigKey::new(n.lang.as_str(), n.var.as_ref());
            !cfg.gives_base_dir(&key)
        },
        Command::Setup(_) => false,
    }
}

/// A subcommand that does not fall back on the default base directory
/// hands back the same whatever the default is.
pub proof fn law_default_base_dir_unused(
    cfg: Config,
    ps: Seq<ProjStateObj>,
    command: Command,
    home: Seq<char>,
    other_home: Seq<char>,
    cwd: Seq<char>,
)
    requires
        !uses_default_base_dir(cfg, command),
    ensures
        command_outcome(cfg, ps, command, home, cwd) == command_outcome(
            cfg,
            ps,
            command,
            other_home,
            cwd,
        ),
{
}

/// Runs a subcommand against the config and the recorded projects: on
/// success the project it addressed becomes the latest one, and the
/// command to hand back is returned; on failure the record is unchanged.
pub fn run_command(
    cfg: &Config,
    st: &mut State,
    command: Command,
    home: &str,
    cwd: &str,
) -> (r: Result<
    String,
    Error,
>)
    requires
        command_well_formed(command),
    ensures
        final(st).path == old(st).path,
        match command_outcome(*cfg, old(st).projects@, command, home@, cwd@) {
            Ok((t, out)) => {
                &&& r matches Ok(s) && s@ == out
                &&& exists|name: String, lang: String, base_dir: String|
                    name@ == t.1 && lang@ == t.0 && base_dir@ == t.2 && final(st).projects@
                        == inserted(old(st).projects@, name, lang, base_dir)
                &&& final(st).projects@.len() > 0
                &&& final(st).projects@[0].proj@ == t.1
                &&& final(st).projects@[0].language@ == t.0
            },
            Err(f) => r matches Err(e) && reports(e, f) && *final(st) == *old(st),
        },
{
    let result = match command {
        Command::Go(cmd) => handle_go(cfg, st, cmd, home),
        Command::Open(cmd) => handle_open(cfg, st, cmd, home),
        Command::New(cmd) => handle_new(cfg, st, &cmd, home, cwd),
        Command::GoNew(cmd) => handle_go_new(cfg, st, cmd, home, cwd),
        Command::OpenNew(cmd) => handle_open_new(cfg, st, cmd, home, cwd),
        Command::Setup(_) => Err(new_raw(String::from_str("the 'setup' subcommand is not available"))),
    };
    match result {
        Ok((update_state, output)) => {
            proof {
                law_insert_then_latest(
                    st.projects@,
                    update_state.name,
                    update_state.lang,
                    update_state.base_dir,
                );
            }
            // Update state
            st.insert(update_state.name, update_state.lang, update_state.base_dir);
            Ok(output)
        },
        Err(e) => Err(e),
    }
}

/// The line that the runner script reads: "EXEC::" and the command, or,
/// in a test run, "EXEC::echo '...'" with the command escaped.
pub open spec fn output_line(string: Seq<char>, test: bool) -> Seq<char> {
    if test {
        "EXEC::echo '"@ + escaped_text(string) + "'"@
    } else {
        "EXEC::"@ + string
    }
}

/// The line that the runner script reads for an output.
pub fn render_output(output: &Output) -> (r: String)
    ensures
        r@ == output_line(output.string@, output.test),
{
    if output.test {
        let mut r = String::from_str("EXEC::echo '");
        let escaped = escape_default(output.string.as_str());
        r.append(escaped.as_str());
        r.append("'");
        r
    } else {
        let mut r = String::from_str("EXEC::");
        r.append(output.string.as_str());
        r
    }
}

} // verus!
