//! The calls into std and into other crates that the verified code makes,
//! each with the contract that the library takes on trust.

use vstd::prelude::*;

use ciborium::de::Error as CborDeError;
use ciborium::ser::Error as CborSerError;
use toml::de::Error as TomlDeError;

use crate::value::{table_well_keyed, TomlValue};

verus! {

/// `<str as PartialEq>::eq`: two string slices compare equal exactly when
/// they hold the same characters.
#[verifier::external_body]
pub fn str_equal(a: &str, b: &str) -> (r: bool)
    ensures
        r == (a@ == b@),
{
    a == b
}

/// `String::push`: appends one character at the end of the string.
#[verifier::external_body]
pub fn push_char(s: &mut String, c: char)
    ensures
        final(s)@ == old(s)@.push(c),
{
    s.push(c)
}

/// `String::pop`: removes the last character, if there is one, and hands
/// it back.
#[verifier::external_body]
pub fn pop_char(s: &mut String) -> (r: Option<char>)
    ensures
        old(s)@.len() == 0 ==> r is None && final(s)@ == old(s)@,
        old(s)@.len() > 0 ==> r == Some(old(s)@.last()) && final(s)@ == old(s)@.drop_last(),
{
    s.pop()
}

#[verifier::external_type_specification]
#[verifier::external_body]
pub struct ExIoError(std::io::Error);

#[verifier::external_type_specification]
#[verifier::external_body]
pub struct ExTomlDeError(TomlDeError);

#[verifier::external_type_specification]
#[verifier::external_body]
pub struct ExBuildError(aho_corasick::BuildError);

#[verifier::external_type_specification]
#[verifier::external_body]
#[verifier::reject_recursive_types(T)]
pub struct ExCborSerError<T>(CborSerError<T>);

#[verifier::external_type_specification]
#[verifier::external_body]
#[verifier::reject_recursive_types(T)]
pub struct ExCborDeError<T>(CborDeError<T>);

/// `<std::io::Error as Display>::fmt`, through `format!`: the error's message.
/// Nothing is stated of the text.
#[verifier::external_body]
pub fn io_error_text(e: &std::io::Error) -> String {
    format!("{}", e)
}

/// The message that `<toml::de::Error as Display>::fmt` writes for an
/// error; it depends on the error value alone.
pub uninterp spec fn toml_error_message(e: TomlDeError) -> Seq<char>;

/// The message that `<aho_corasick::BuildError as Display>::fmt` writes for
/// an error: which limit of the automaton was exceeded; it depends on the
/// error value alone.
pub uninterp spec fn build_error_message(e: aho_corasick::BuildError) -> Seq<char>;

/// `<toml::de::Error as Display>::fmt`, through `format!`: the parser's
/// message.
#[verifier::external_body]
pub fn toml_error_text(e: &TomlDeError) -> (r: String)
    ensures
        r@ == toml_error_message(*e),
{
    format!("{}", e)
}

/// `<aho_corasick::BuildError as Display>::fmt`, through `format!`.
#[verifier::external_body]
pub fn build_error_text(e: &aho_corasick::BuildError) -> (r: String)
    ensures
        r@ == build_error_message(*e),
{
    format!("{}", e)
}

/// `<ciborium::ser::Error<_> as Display>::fmt`, through `format!`.
/// Nothing is stated of the text.
#[verifier::external_body]
pub fn cbor_ser_error_text(e: &CborSerError<std::io::Error>) -> String {
    format!("{}", e)
}

/// `<ciborium::de::Error<_> as Display>::fmt`, through `format!`.
/// Nothing is stated of the text.
#[verifier::external_body]
pub fn cbor_de_error_text(e: &CborDeError<std::io::Error>) -> String {
    format!("{}", e)
}

#[verifier::external_type_specification]
#[verifier::external_body]
pub struct ExAhoCorasick(aho_corasick::AhoCorasick);

/// Whether `AhoCorasick::new` builds an automaton for these patterns. It
/// fails only where the patterns exceed the automaton's fixed limits on the
/// number of patterns, the length of a pattern or the number of states.
pub uninterp spec fn matcher_builds(patterns: Seq<Seq<char>>) -> bool;

/// The patterns that an automaton was built from, in order.
pub uninterp spec fn matcher_patterns(m: aho_corasick::AhoCorasick) -> Seq<Seq<char>>;

/// What `AhoCorasick::replace_all` produces for an automaton built with the
/// default configuration from `patterns`: the haystack with each match,
/// found by the default (standard) match semantics, replaced by the
/// replacement of the pattern that matched.
pub uninterp spec fn replaced_text(
    patterns: Seq<Seq<char>>,
    replacements: Seq<Seq<char>>,
    haystack: Seq<char>,
) -> Seq<char>;

/// The number of characters of all the patterns together.
pub open spec fn total_chars(patterns: Seq<Seq<char>>) -> nat
    decreases patterns.len(),
{
    if patterns.len() == 0 {
        0
    } else {
        total_chars(patterns.drop_last()) + patterns.last().len()
    }
}

/// Whether `pattern` occurs somewhere in `text`.
pub open spec fn occurs_in(pattern: Seq<char>, text: Seq<char>) -> bool {
    exists|i: int| 0 <= i && i + pattern.len() <= text.len() && #[trigger] text.subrange(i, i + pattern.len()) == pattern
}

/// `AhoCorasick::new`: builds an automaton with the default configuration
/// from the patterns, in order. It succeeds exactly when `matcher_builds`
/// holds of the patterns, and the automaton it returns holds them. Its
/// only failures are identifier overflows and over-long patterns: with at
/// most 1000 patterns of at most 10000 characters in all (40000 bytes), the
/// trie has at most 40004 states, each with at most 256 transitions and at
/// most 1000 matches, far below the identifier limit of about 2^31, so it
/// succeeds.
#[verifier::external_body]
pub fn build_matcher(patterns: &Vec<String>) -> (r: Result<aho_corasick::AhoCorasick, aho_corasick::BuildError>)
    ensures
        r is Ok <==> matcher_builds(patterns.deep_view()),
        r matches Ok(m) ==> matcher_patterns(m) == patterns.deep_view(),
        patterns@.len() <= 1000 && total_chars(patterns.deep_view()) <= 10000 ==> r is Ok,
{
    aho_corasick::AhoCorasick::new(patterns)
}

/// `AhoCorasick::replace_all`: replaces each match in `haystack` by the
/// replacement of the pattern that matched. It panics unless there is one
/// replacement per pattern, which `requires` demands. Where no pattern
/// occurs in the haystack, the haystack comes back unchanged.
#[verifier::external_body]
pub fn replace_all(m: &aho_corasick::AhoCorasick, haystack: &str, replacements: &Vec<String>) -> (r: String)
    requires
        replacements@.len() == matcher_patterns(*m).len(),
    ensures
        r@ == replaced_text(matcher_patterns(*m), replacements.deep_view(), haystack@),
        (forall|i: int| 0 <= i < matcher_patterns(*m).len() ==> !occurs_in(#[trigger] matcher_patterns(*m)[i], haystack@))
            ==> r@ == haystack@,
{
    m.replace_all(haystack, replacements)
}

/// A hexadecimal digit, in lower case.
pub open spec fn hex_digit(d: nat) -> char
    recommends
        d < 16,
{
    if d < 10 {
        ((d + 48) as u8) as char
    } else {
        ((d - 10 + 97) as u8) as char
    }
}

/// The hexadecimal digits of a natural number, most significant first.
pub open spec fn hex_text(n: nat) -> Seq<char>
    decreases n,
{
    if n < 16 {
        seq![hex_digit(n)]
    } else {
        hex_text(n / 16).push(hex_digit(n % 16))
    }
}

/// What `char::escape_default` yields for a character: tab, carriage
/// return, line feed, single quote, double quote and backslash escaped with
/// a backslash; the other printable ASCII characters (0x20 to 0x7e) as they
/// are; every other character as `\u{NNNN}` with its code in hexadecimal.
pub open spec fn char_escaped(c: char) -> Seq<char> {
    if c == '\t' {
        seq!['\\', 't']
    } else if c == '\r' {
        seq!['\\', 'r']
    } else if c == '\n' {
        seq!['\\', 'n']
    } else if c == '\'' {
        seq!['\\', '\'']
    } else if c == '"' {
        seq!['\\', '"']
    } else if c == '\\' {
        seq!['\\', '\\']
    } else if 0x20 <= (c as int) <= 0x7e {
        seq![c]
    } else {
        seq!['\\', 'u', '{'] + hex_text(c as nat) + seq!['}']
    }
}

/// What `str::escape_default` yields for a text: each character as
/// `char::escape_default` escapes it.
pub open spec fn escaped_text(s: Seq<char>) -> Seq<char>
    decreases s.len(),
{
    if s.len() == 0 {
        Seq::empty()
    } else {
        escaped_text(s.drop_last()) + char_escaped(s.last())
    }
}

/// `str::escape_default`, collected into a `String` by `to_string`.
#[verifier::external_body]
pub fn escape_default(s: &str) -> (r: String)
    ensures
        r@ == escaped_text(s@),
{
    s.escape_default().to_string()
}

#[verifier::external_type_specification]
#[verifier::external_body]
pub struct ExTomlValue(toml::Value);

#[verifier::external_type_specification]
#[verifier::external_body]
#[verifier::reject_recursive_types(K)]
#[verifier::reject_recursive_types(V)]
pub struct ExTomlMap<K, V>(toml::map::Map<K, V>);

/// Whether toml parses a text as a table.
pub uninterp spec fn toml_parses(text: Seq<char>) -> bool;

/// The entries of the table that toml parses a text as, in the order
/// toml's table yields them, each value taken variant for variant.
pub uninterp spec fn toml_entries(text: Seq<char>) -> Seq<(String, TomlValue)>;

/// A toml value as the library holds it, variant for variant: a float and
/// a date-time become the text their `Display` gives.
#[verifier::external_body]
fn value_from_toml(v: toml::Value) -> TomlValue {
    match v {
        toml::Value::String(s) => TomlValue::Str(s),
        toml::Value::Integer(i) => TomlValue::Integer(i),
        toml::Value::Float(f) => TomlValue::Float(f.to_string()),
        toml::Value::Boolean(b) => TomlValue::Boolean(b),
        toml::Value::Datetime(d) => TomlValue::Datetime(d.to_string()),
        toml::Value::Array(a) => TomlValue::Array(a.into_iter().map(value_from_toml).collect()),
        toml::Value::Table(t) => TomlValue::Table(entries_from_toml(t)),
    }
}

/// The entries of a toml table, in the order the table yields them.
#[verifier::external_body]
fn entries_from_toml(t: toml::map::Map<String, toml::Value>) -> Vec<(String, TomlValue)> {
    t.into_iter().map(|(k, v)| (k, value_from_toml(v))).collect()
}

/// `<toml::Table as FromStr>::from_str`: parses a TOML document into a
/// table, whose entries come back as the library holds them. It succeeds
/// exactly when `toml_parses` holds of the text. The keys of a toml table
/// are distinct, and so are those of every table within it.
#[verifier::external_body]
pub fn parse_toml_table(text: &str) -> (r: Result<Vec<(String, TomlValue)>, TomlDeError>)
    ensures
        r is Ok <==> toml_parses(text@),
        r matches Ok(t) ==> t@ == toml_entries(text@) && table_well_keyed(t@),
{
    text.parse::<toml::Table>().map(entries_from_toml)
}

} // verus!
