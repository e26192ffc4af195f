//! The command line, as the switcher reads it: the subcommands and their
//! arguments.

use vstd::prelude::*;

verus! {

/// The whole command line.
pub struct Cli {
    /// Path to configuration file. If not provided will follow the XDG base
    /// directory specification.
    pub config: Option<String>,
    /// Path to state directory. If not provided will follow the XDG base
    /// directory specification.
    pub state_dir: Option<String>,
    /// Print the command instead of handing it over to be run
    pub test: bool,
    /// The subcommand
    pub command: Command,
}

/// The subcommands.
pub enum Command {
    /// Go to project
    Go(Go),
    /// Go to project and open
    Open(Go),
    /// Create a new project
    New(New),
    /// Create a new project and go to it
    GoNew(New),
    /// Create a new project, go to it, and open
    OpenNew(New),
    /// Setup options (Generate runner and config)
    Setup(Setup),
}

/// Arguments of 'setup'.
pub struct Setup {
    /// Generate the runner shell script and place it at PATH, or in the same
    /// directory as this executable if not specified
    pub generate_shell_script: Option<Option<String>>,
    /// Generate the runner shell script with the specified path to the
    /// executable
    pub with_executable: Option<String>,
    /// Print the runner shell script
    pub print_shell_script: bool,
    /// Create a default config file
    pub place_config: bool,
}

/// Arguments of 'go' and 'open'.
pub struct Go {
    /// The language, or the project name when it is the only one given and
    /// `lang` is not set
    pub lang_or_name: Option<String>,
    /// The project name
    pub name: Option<String>,
    /// The only argument given is the language
    pub lang: bool,
    /// Config variant to use
    pub var: Option<String>,
}

/// Arguments of 'new', 'go-new' and 'open-new'.
pub struct New {
    /// The language
    pub lang: String,
    /// The project name
    pub name: String,
    /// Create in cwd instead of <LANG>
    pub here: bool,
    /// Config variant to use
    pub var: Option<String>,
    /// Pass to init procedure
    pub passthrough: Vec<String>,
}

/// The command line with the paths of the config and the state resolved.
pub struct Pargs {
    /// Path to the config file
    pub config: String,
    /// Path to the state file
    pub state: String,
    /// The subcommand
    pub command: Command,
    /// Print the command instead of handing it over to be run
    pub test: bool,
}

/// An optional borrowed string, as an optional string.
pub open spec fn deref_opt(o: Option<&String>) -> Option<String> {
    match o {
        Some(s) => Some(*s),
        None => None,
    }
}

impl Go {
    /// Whether the arguments are in a shape that the command line allows: a
    /// name is only given after a language.
    pub open spec fn well_formed(&self) -> bool {
        !(self.lang_or_name is None && self.name is Some)
    }

    /// The language and the project name that the arguments give.
    pub open spec fn lang_name(&self) -> (Option<String>, Option<String>) {
        match (self.lang_or_name, self.name) {
            (Some(lang), Some(name)) => (Some(lang), Some(name)),
            (Some(first), None) => if self.lang {
                (Some(first), None)
            } else {
                (None, Some(first))
            },
            _ => (None, None),
        }
    }

    /// Returns (lang, name)
    pub fn get_lang_name(&self) -> (r: (Option<&String>, Option<&String>))
        requires
            self.well_formed(),
        ensures
            (deref_opt(r.0), deref_opt(r.1)) == self.lang_name(),
    {
        match (&self.lang_or_name, &self.name, &self.lang) {
            (Some(lang), Some(name), _) => (Some(lang), Some(name)),
            (Some(lang), None, true) => (Some(lang), None),
            (Some(lang), None, false) => (None, Some(lang)),
            (None, _, _) => (None, None),
        }
    }
}

impl From<New> for Go {
    fn from(value: New) -> (r: Self) {
        Go { lang_or_name: Some(value.lang), name: Some(value.name), lang: false, var: value.var }
    }
}

impl vstd::std_specs::convert::FromSpecImpl<New> for Go {
    open spec fn obeys_from_spec() -> bool {
        true
    }

    open spec fn from_spec(value: New) -> Self {
        Go { lang_or_name: Some(value.lang), name: Some(value.name), lang: false, var: value.var }
    }
}

/// A 'go' made from the arguments of a 'new' names both the language and
/// the project, and is always well formed.
pub proof fn law_go_from_new(value: New)
    ensures
        <Go as vstd::std_specs::convert::FromSpec<New>>::from_spec(value).well_formed(),
        <Go as vstd::std_specs::convert::FromSpec<New>>::from_spec(value).lang_name() == (
            Some(value.lang),
            Some(value.name),
        ),
{
}

} // verus!
