//! The errors the switcher reports, and their text.

use vstd::prelude::*;

use crate::external::{
    build_error_message, build_error_text, cbor_de_error_text, cbor_ser_error_text,
    io_error_text, toml_error_message, toml_error_text,
};

verus! {

/// Every error that the switcher reports. The first field is a short
/// description of what was being done; where another crate failed, the
/// second field is that crate's error.
#[derive(Debug)]
pub enum Error {
    /// Serialising data
    Serialize(String, ciborium::ser::Error<std::io::Error>),
    /// Deserialising data
    Deserialize(String, ciborium::de::Error<std::io::Error>),
    /// Invalid config values
    Config(String),
    /// Config parsing errors
    ConfigParse(String, toml::de::Error),
    /// Invalid user provided variables
    UserVarReplace(String, aho_corasick::BuildError),
    /// Io errors
    Io(String, std::io::Error),
    /// Used for printing just the error message and nothing else
    Raw(String),
}

/// The switcher's result type.
pub type Result<T> = core::result::Result<T, Error>;

/// Create a new `Serialize` error.
pub fn new_ser(s: String, e: ciborium::ser::Error<std::io::Error>) -> (r: Error)
    ensures
        r == Error::Serialize(s, e),
{
    Error::Serialize(s, e)
}

/// Create a new `Deserialize` error.
pub fn new_de(s: String, e: ciborium::de::Error<std::io::Error>) -> (r: Error)
    ensures
        r == Error::Deserialize(s, e),
{
    Error::Deserialize(s, e)
}

/// Create a new `Config` error.
pub fn new_config(s: String) -> (r: Error)
    ensures
        r == Error::Config(s),
{
    Error::Config(s)
}

/// Create a new `ConfigParse` error.
pub fn new_config_parse(s: String, e: toml::de::Error) -> (r: Error)
    ensures
        r == Error::ConfigParse(s, e),
{
    Error::ConfigParse(s, e)
}

/// Create a new `UserVarReplace` error.
pub fn new_user_var_replace(s: String, e: aho_corasick::BuildError) -> (r: Error)
    ensures
        r == Error::UserVarReplace(s, e),
{
    Error::UserVarReplace(s, e)
}

/// Create a new `Raw` error.
pub fn new_raw(s: String) -> (r: Error)
    ensures
        r == Error::Raw(s),
{
    Error::Raw(s)
}

/// Create a new `Io` error.
pub fn new_io(s: String, e: std::io::Error) -> (r: Error)
    ensures
        r == Error::Io(s, e),
{
    Error::Io(s, e)
}

impl Error {
    /// The variant's name.
    pub open spec fn name_text(&self) -> Seq<char> {
        match self {
            Error::Serialize(..) => "Serialize"@,
            Error::Deserialize(..) => "Deserialize"@,
            Error::Config(..) => "Config"@,
            Error::ConfigParse(..) => "ConfigParse"@,
            Error::UserVarReplace(..) => "UserVarReplace"@,
            Error::Raw(..) => "Raw"@,
            Error::Io(..) => "Io"@,
        }
    }

    /// The description that the error carries.
    pub open spec fn description(&self) -> Seq<char> {
        match self {
            Error::Serialize(s, _) => s@,
            Error::Deserialize(s, _) => s@,
            Error::Config(s) => s@,
            Error::ConfigParse(s, _) => s@,
            Error::UserVarReplace(s, _) => s@,
            Error::Raw(s) => s@,
            Error::Io(s, _) => s@,
        }
    }

    /// What the text of the error starts with: "{name} Error: {description}",
    /// or the bare description for `Raw`.
    pub open spec fn text_prefix(&self) -> Seq<char> {
        if self is Raw {
            self.description()
        } else {
            self.name_text() + " Error: "@ + self.description()
        }
    }

    /// Get enum member as literal string
    pub fn string_name(&self) -> (r: &'static str)
        ensures
            r@ == self.name_text(),
    {
        match self {
            Error::Serialize(..) => "Serialize",
            Error::Deserialize(..) => "Deserialize",
            Error::Config(..) => "Config",
            Error::ConfigParse(..) => "ConfigParse",
            Error::UserVarReplace(..) => "UserVarReplace",
            Error::Raw(..) => "Raw",
            Error::Io(..) => "Io",
        }
    }

    /// The error as it is shown to the user, given the text of the error
    /// that it wraps ("" where it wraps none): "{name} Error: {description}"
    /// followed by that text; a `Raw` error is shown as its description
    /// alone.
    pub fn compose_text(&self, inner: &str) -> (r: String)
        ensures
            r@ == self.text_prefix() + inner@,
    {
        let mut r = String::new();
        if !matches!(self, Error::Raw(_)) {
            r.append(self.string_name());
            r.append(" Error: ");
        }
        let s = match self {
            Error::Serialize(s, _) => s,
            Error::Deserialize(s, _) => s,
            Error::Config(s) => s,
            Error::ConfigParse(s, _) => s,
            Error::UserVarReplace(s, _) => s,
            Error::Raw(s) => s,
            Error::Io(s, _) => s,
        };
        r.append(s.as_str());
        assert(r@ =~= self.text_prefix());
        r.append(inner);
        r
    }

    /// The error as it is shown to the user: `compose_text` with the text
    /// of the wrapped error, which its crate's `Display` gives. For an I/O or
    /// CBOR error that text comes from the operating system or the data.
    pub fn to_text(&self) -> (r: String)
        ensures
            self is Config || self is Raw ==> r@ == self.text_prefix(),
            self matches Error::ConfigParse(_, e) ==> r@ == self.text_prefix()
                + toml_error_message(*e),
            self matches Error::UserVarReplace(_, e) ==> r@ == self.text_prefix()
                + build_error_message(*e),
            exists|inner: Seq<char>| r@ == self.text_prefix() + inner,
    {
        let inner = match self {
            Error::Serialize(_, e) => cbor_ser_error_text(e),
            Error::Deserialize(_, e) => cbor_de_error_text(e),
            Error::ConfigParse(_, e) => toml_error_text(e),
            Error::UserVarReplace(_, e) => build_error_text(e),
            Error::Io(_, e) => io_error_text(e),
            Error::Config(_) => String::new(),
            Error::Raw(_) => String::new(),
        };
        self.compose_text(inner.as_str())
    }
}

} // verus!
