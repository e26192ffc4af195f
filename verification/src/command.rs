//! Building the shell command that the switcher hands back: the selected
//! command template with its placeholders filled in.

use vstd::prelude::*;

use crate::constants::{SUB_DIR, SUB_LANG, SUB_NAME, SUB_PATH};
use crate::errors::{new_user_var_replace, Error};
use crate::external::{
    build_matcher, matcher_builds, occurs_in, replace_all, replaced_text, total_chars,
};
use crate::text::{join_path, joined_path};
use crate::value::{table_in_vars_message, value_text, value_to_string, TomlValue};

verus! {

/// The placeholder for a user variable called `k`: "%{k}".
pub open spec fn placeholder(k: Seq<char>) -> Seq<char> {
    "%{"@ + k + "}"@
}

/// The placeholders that a command may hold, in order: the language, the
/// project name, the base directory, the project path, then one per user
/// variable.
pub open spec fn search_patterns(vars: Seq<(String, TomlValue)>) -> Seq<Seq<char>> {
    seq![SUB_LANG@, SUB_NAME@, SUB_DIR@, SUB_PATH@] + Seq::new(
        vars.len(),
        |j: int| placeholder(vars[j].0@),
    )
}

/// Whether every user variable renders, that is, none is or holds a table.
pub open spec fn vars_renderable(vars: Seq<(String, TomlValue)>) -> bool {
    forall|j: int| 0 <= j < vars.len() ==> (#[trigger] value_text(vars[j].1, false)) is Some
}

/// The path of a project: `parent`/`name` where the project is made in a
/// given directory, otherwise `base_dir`/`lang`/`name`.
pub open spec fn project_path(
    lang: Seq<char>,
    name: Seq<char>,
    base_dir: Seq<char>,
    parent: Option<Seq<char>>,
) -> Seq<char> {
    match parent {
        Some(dir) => joined_path(dir, name),
        None => joined_path(joined_path(base_dir, lang), name),
    }
}

/// The text of an optional string slice.
pub open spec fn opt_str(o: Option<&str>) -> Option<Seq<char>> {
    match o {
        Some(s) => Some(s@),
        None => None,
    }
}

/// What each placeholder of `search_patterns(vars)` is replaced by.
pub open spec fn replacements(
    lang: Seq<char>,
    name: Seq<char>,
    base_dir: Seq<char>,
    parent: Option<Seq<char>>,
    vars: Seq<(String, TomlValue)>,
) -> Seq<Seq<char>> {
    seq![lang, name, base_dir, project_path(lang, name, base_dir, parent)] + Seq::new(
        vars.len(),
        |j: int| value_text(vars[j].1, false)->0,
    )
}

/// The message of the error for placeholders that the matcher cannot take.
pub open spec fn matcher_failure_message() -> Seq<char> {
    "building search for user provided variables: "@
}

/// The kinds of error that building a command reports, with their messages.
pub enum CommandFailure {
    /// A user variable is or holds a table.
    Config(Seq<char>),
    /// The placeholders exceed what the matcher can take.
    UserVarReplace(Seq<char>),
    /// The project cannot be found.
    Raw(Seq<char>),
}

/// Whether `e` is the error that `f` describes.
pub open spec fn reports(e: Error, f: CommandFailure) -> bool {
    match f {
        CommandFailure::Config(m) => e matches Error::Config(s) && s@ == m,
        CommandFailure::UserVarReplace(m) => e matches Error::UserVarReplace(s, _) && s@ == m,
        CommandFailure::Raw(m) => e matches Error::Raw(s) && s@ == m,
    }
}

/// The command that a template gives for a project: its placeholders
/// replaced, or the failure.
pub open spec fn built_command(
    lang: Seq<char>,
    name: Seq<char>,
    cmd: Seq<char>,
    vars: Seq<(String, TomlValue)>,
    base_dir: Seq<char>,
    parent: Option<Seq<char>>,
) -> Result<Seq<char>, CommandFailure> {
    if !vars_renderable(vars) {
        Err(CommandFailure::Config(table_in_vars_message()))
    } else if !matcher_builds(search_patterns(vars)) {
        Err(CommandFailure::UserVarReplace(matcher_failure_message()))
    } else {
        Ok(replaced_text(search_patterns(vars), replacements(lang, name, base_dir, parent, vars), cmd))
    }
}

/// The placeholders and their replacements, position by position: the
/// language, the project name, the base directory and the project path,
/// which is `parent`/name when the project is made in a given directory and
/// base_dir/lang/name otherwise; then each user variable's placeholder
/// "%{key}" with the variable's unquoted text.
pub proof fn law_substitutions(
    lang: Seq<char>,
    name: Seq<char>,
    base_dir: Seq<char>,
    parent: Option<Seq<char>>,
    vars: Seq<(String, TomlValue)>,
)
    ensures
        search_patterns(vars).len() == vars.len() + 4,
        replacements(lang, name, base_dir, parent, vars).len() == vars.len() + 4,
        search_patterns(vars)[0] == "%{lang}"@,
        search_patterns(vars)[1] == "%{name}"@,
        search_patterns(vars)[2] == "%{base_dir}"@,
        search_patterns(vars)[3] == "%{path}"@,
        replacements(lang, name, base_dir, parent, vars)[0] == lang,
        replacements(lang, name, base_dir, parent, vars)[1] == name,
        replacements(lang, name, base_dir, parent, vars)[2] == base_dir,
        parent is Some ==> replacements(lang, name, base_dir, parent, vars)[3] == joined_path(
            parent->0,
            name,
        ),
        parent is None ==> replacements(lang, name, base_dir, parent, vars)[3] == joined_path(
            joined_path(base_dir, lang),
            name,
        ),
        forall|j: int|
            0 <= j < vars.len() ==> {
                &&& #[trigger] search_patterns(vars)[4 + j] == "%{"@ + vars[j].0@ + "}"@
                &&& replacements(lang, name, base_dir, parent, vars)[4 + j] == value_text(
                    vars[j].1,
                    false,
                )->0
            },
{
}

/// A command is built exactly when every user variable renders and the
/// matcher takes the placeholders; it is then the template with the
/// placeholders replaced, and the failures are those of a table variable
/// first, then of the matcher.
pub proof fn law_built_command(
    lang: Seq<char>,
    name: Seq<char>,
    cmd: Seq<char>,
    vars: Seq<(String, TomlValue)>,
    base_dir: Seq<char>,
    parent: Option<Seq<char>>,
)
    ensures
        built_command(lang, name, cmd, vars, base_dir, parent) is Ok <==> (vars_renderable(vars)
            && matcher_builds(search_patterns(vars))),
        built_command(lang, name, cmd, vars, base_dir, parent) is Ok ==> built_command(
            lang,
            name,
            cmd,
            vars,
            base_dir,
            parent,
        )->Ok_0 == replaced_text(
            search_patterns(vars),
            replacements(lang, name, base_dir, parent, vars),
            cmd,
        ),
        !vars_renderable(vars) ==> built_command(lang, name, cmd, vars, base_dir, parent) == Err::<
            Seq<char>,
            CommandFailure,
        >(CommandFailure::Config(table_in_vars_message())),
        vars_renderable(vars) && !matcher_builds(search_patterns(vars)) ==> built_command(
            lang,
            name,
            cmd,
            vars,
            base_dir,
            parent,
        ) == Err::<Seq<char>, CommandFailure>(
            CommandFailure::UserVarReplace(matcher_failure_message()),
        ),
{
}

/// Every placeholder starts with "%{".
proof fn lemma_patterns_marked(vars: Seq<(String, TomlValue)>)
    ensures
        forall|i: int|
            0 <= i < search_patterns(vars).len() ==> (#[trigger] search_patterns(vars)[i]).len()
                >= 2 && search_patterns(vars)[i].subrange(0, 2) == "%{"@,
{
    reveal_strlit("%{");
    reveal_strlit("}");
    reveal_strlit("%{lang}");
    reveal_strlit("%{name}");
    reveal_strlit("%{base_dir}");
    reveal_strlit("%{path}");
    let pats = search_patterns(vars);
    assert forall|i: int| 0 <= i < pats.len() implies (#[trigger] pats[i]).len() >= 2
        && pats[i].subrange(0, 2) == "%{"@ by {
        if i >= 4 {
            assert(pats[i] == placeholder(vars[i - 4].0@));
            assert(pats[i].subrange(0, 2) =~= "%{"@);
        } else {
            assert(pats[i].subrange(0, 2) =~= "%{"@);
        }
    }
}

/// Where "%{" does not occur in a text, no placeholder does.
proof fn lemma_patterns_absent(vars: Seq<(String, TomlValue)>, text: Seq<char>)
    requires
        !occurs_in("%{"@, text),
    ensures
        forall|i: int|
            0 <= i < search_patterns(vars).len() ==> !occurs_in(
                #[trigger] search_patterns(vars)[i],
                text,
            ),
{
    lemma_patterns_marked(vars);
    reveal_strlit("%{");
    let pats = search_patterns(vars);
    assert forall|i: int| 0 <= i < pats.len() implies !occurs_in(#[trigger] pats[i], text) by {
        let p = pats[i];
        if occurs_in(p, text) {
            let k = choose|k: int|
                0 <= k && k + p.len() <= text.len() && #[trigger] text.subrange(k, k + p.len())
                    == p;
            assert(text.subrange(k, k + 2) =~= p.subrange(0, 2));
            assert(occurs_in("%{"@, text));
        }
    }
}

/// Args for `build_command`
pub struct BuildCmdArgs<'a> {
    /// Project language
    pub lang: &'a str,
    /// Project name
    pub name: &'a str,
    /// Command to run
    pub cmd: &'a str,
    /// User variables
    pub vars: &'a Vec<(String, TomlValue)>,
    /// Language directory
    pub base_dir: &'a str,
    /// The directory to make the project in, where it is not made under
    /// `base_dir`/`lang`
    pub parent: Option<&'a str>,
}

/// The placeholders of a command and what each is replaced by, in order:
/// language, project name, base directory, project path (in `parent` if
/// one is given), then the user variables.
///
/// # Errors:
/// Returns Error::Config if a user variable is or contains a table.
pub fn substitutions(
    lang: &str,
    name: &str,
    base_dir: &str,
    parent: Option<&str>,
    vars: &Vec<(String, TomlValue)>,
) -> (r: Result<(Vec<String>, Vec<String>), Error>)
    ensures
        match r {
            Ok((search, replace)) => {
                &&& vars_renderable(vars@)
                &&& search.deep_view() == search_patterns(vars@)
                &&& replace.deep_view() == replacements(lang@, name@, base_dir@, opt_str(parent), vars@)
            },
            Err(e) => !vars_renderable(vars@) && reports(
                e,
                CommandFailure::Config(table_in_vars_message()),
            ),
        },
{
    // Build full path
    let full_path = match parent {
        Some(dir) => join_path(dir, name),
        None => {
            let path = join_path(base_dir, lang);
            join_path(path.as_str(), name)
        },
    };
    let mut search: Vec<String> = Vec::new();
    search.push(String::from_str(SUB_LANG));
    search.push(String::from_str(SUB_NAME));
    search.push(String::from_str(SUB_DIR));
    search.push(String::from_str(SUB_PATH));
    let mut replace: Vec<String> = Vec::new();
    replace.push(String::from_str(lang));
    replace.push(String::from_str(name));
    replace.push(String::from_str(base_dir));
    replace.push(full_path);
    let ghost pats = search_patterns(vars@);
    let ghost reps = replacements(lang@, name@, base_dir@, opt_str(parent), vars@);
    let mut i: usize = 0;
    while i < vars.len()
        invariant
            i <= vars@.len(),
            pats == search_patterns(vars@),
            reps == replacements(lang@, name@, base_dir@, opt_str(parent), vars@),
            search@.len() == 4 + i,
            replace@.len() == 4 + i,
            forall|j: int| 0 <= j < 4 + i ==> (#[trigger] search@[j])@ == pats[j],
            forall|j: int| 0 <= j < 4 + i ==> (#[trigger] replace@[j])@ == reps[j],
            forall|j: int| 0 <= j < i ==> (#[trigger] value_text(vars@[j].1, false)) is Some,
        decreases vars@.len() - i,
    {
        let mut key = String::from_str("%{");
        key.append(vars[i].0.as_str());
        key.append("}");
        match value_to_string(&vars[i].1, false) {
            Ok(v) => {
                search.push(key);
                replace.push(v);
            },
            Err(e) => {
                return Err(e);
            },
        }
        i = i + 1;
    }
    assert(search.deep_view() =~= pats);
    assert(replace.deep_view() =~= reps);
    Ok((search, replace))
}

/// Build the final output command, combining paths, substituting magic
/// variables, and substituting user variables.
///
/// # Errors:
/// Returns Error::Config if a user variable is or contains a table.
/// Returns Error::UserVarReplace if the variables are named in such a way
/// that the matcher cannot be built for them.
pub fn build_command(args: BuildCmdArgs) -> (r: Result<String, Error>)
    ensures
        match built_command(
            args.lang@,
            args.name@,
            args.cmd@,
            args.vars@,
            args.base_dir@,
            opt_str(args.parent),
        ) {
            Ok(s) => r matches Ok(t) && t@ == s,
            Err(f) => r matches Err(e) && reports(e, f),
        },
        // A command without any "%{" has nothing to substitute.
        vars_renderable(args.vars@) && matcher_builds(search_patterns(args.vars@)) && !occurs_in(
            "%{"@,
            args.cmd@,
        ) ==> (r matches Ok(t) && t@ == args.cmd@),
        // Few and short placeholders always build.
        vars_renderable(args.vars@) && search_patterns(args.vars@).len() <= 1000 && total_chars(
            search_patterns(args.vars@),
        ) <= 10000 ==> r is Ok,
{
    let (search, replace) = match substitutions(args.lang, args.name, args.base_dir, args.parent, args.vars) {
        Ok(p) => p,
        Err(e) => {
            return Err(e);
        },
    };
    let patterns = match build_matcher(&search) {
        Ok(m) => m,
        Err(e) => {
            return Err(
                new_user_var_replace(
                    String::from_str("building search for user provided variables: "),
                    e,
                ),
            );
        },
    };
    proof {
        if !occurs_in("%{"@, args.cmd@) {
            lemma_patterns_absent(args.vars@, args.cmd@);
        }
    }
    assert(search@.len() == search.deep_view().len());
    assert(replace@.len() == replace.deep_view().len());
    Ok(replace_all(&patterns, args.cmd, &replace))
}

} // verus!
