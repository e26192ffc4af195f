//! Names and defaults that the switcher uses.

use vstd::prelude::*;

verus! {

/// Application folder name
pub const APP_NAME: &'static str = "worst-switcher";

/// Config file name
pub const CONFIG_NAME: &'static str = "config.toml";

/// State file
pub const STATE_FILE: &'static str = "state.cbor";

/// Placeholder for the language name
pub const SUB_LANG: &'static str = "%{lang}";

/// Placeholder for the project name
pub const SUB_NAME: &'static str = "%{name}";

/// Placeholder for the directory that the language directories live in
pub const SUB_DIR: &'static str = "%{base_dir}";

/// Placeholder for the full path to the project root
pub const SUB_PATH: &'static str = "%{path}";

/// Command for the 'new' subcommand when the config gives none
pub const NEW_DEFAULT: &'static str = "mkdir '%{path}'";

/// Command for the 'go' subcommand when the config gives none
pub const GO_DEFAULT: &'static str = "cd '%{path}'";

/// Command for the 'open' subcommand when the config gives none
pub const OPEN_DEFAULT: &'static str = "nvim .";

} // verus!
