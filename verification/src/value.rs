//! The values that a TOML configuration holds, and their rendering as the
//! text that replaces a user variable.

use vstd::prelude::*;

use crate::errors::{new_config, Error};
use crate::external::{pop_char, push_char};
use crate::keyed::keys_distinct;
use crate::text::{int_text, int_to_string};

verus! {

/// A TOML value. A float and a date-time are held as the text that they
/// print as; a table as its entries, in the order in which toml's table
/// yields them (sorted by key; its keys are distinct).
#[derive(Debug)]
pub enum TomlValue {
    Str(String),
    Integer(i64),
    Float(String),
    Boolean(bool),
    Datetime(String),
    Array(Vec<TomlValue>),
    Table(Vec<(String, TomlValue)>),
}

/// Whether the keys of a table, and of every table within it, are
/// distinct, as those of a parsed TOML table are.
pub open spec fn table_well_keyed(t: Seq<(String, TomlValue)>) -> bool
    decreases t,
{
    &&& keys_distinct(t)
    &&& forall|i: int|
        #![trigger t[i]]
        0 <= i < t.len() ==> (t[i].1 matches TomlValue::Table(sub) ==> table_well_keyed(sub@))
}

/// The text of `true` or `false`.
pub open spec fn bool_text(b: bool) -> Seq<char> {
    if b {
        "true"@
    } else {
        "false"@
    }
}

/// The text that a value renders as, or `None` where it is or holds a
/// table. A string is wrapped in double quotes when `quote` is set; an
/// array renders its items quoted, each followed by ',', and then has its
/// last character replaced by ']' after a leading '['.
pub open spec fn value_text(v: TomlValue, quote: bool) -> Option<Seq<char>>
    decreases v, 1nat,
{
    match v {
        TomlValue::Str(s) => Some(
            if quote {
                seq!['"'] + s@ + seq!['"']
            } else {
                s@
            },
        ),
        TomlValue::Integer(i) => Some(int_text(i as int)),
        TomlValue::Float(t) => Some(t@),
        TomlValue::Boolean(b) => Some(bool_text(b)),
        TomlValue::Datetime(t) => Some(t@),
        TomlValue::Array(items) => match items_text(items@) {
            Some(t) => Some((seq!['['] + t).drop_last().push(']')),
            None => None,
        },
        TomlValue::Table(_) => None,
    }
}

/// The concatenated text of the items of an array, each quoted and
/// followed by ','; `None` where one of them is or holds a table.
pub open spec fn items_text(items: Seq<TomlValue>) -> Option<Seq<char>>
    decreases items, 0nat,
{
    if items.len() == 0 {
        Some(Seq::empty())
    } else {
        match items_text(items.drop_last()) {
            Some(a) => match value_text(items.last(), true) {
                Some(b) => Some(a + b.push(',')),
                None => None,
            },
            None => None,
        }
    }
}

/// Once a prefix of the items fails to render, the whole array fails.
proof fn lemma_items_text_none(items: Seq<TomlValue>, k: int)
    requires
        0 <= k <= items.len(),
        items_text(items.take(k)) is None,
    ensures
        items_text(items) is None,
    decreases items.len(),
{
    if k == items.len() {
        assert(items.take(k) =~= items);
    } else {
        assert(items.drop_last().take(k) =~= items.take(k));
        lemma_items_text_none(items.drop_last(), k);
    }
}

/// The message of the error for a table where a variable's value is
/// expected.
pub open spec fn table_in_vars_message() -> Seq<char> {
    "invalid 'vars': 'vars' is not allowed to be a table"@
}

impl TomlValue {
    /// The name of the value's type.
    pub open spec fn kind_text(&self) -> Seq<char> {
        match self {
            TomlValue::Str(..) => "string"@,
            TomlValue::Integer(..) => "integer"@,
            TomlValue::Float(..) => "float"@,
            TomlValue::Boolean(..) => "boolean"@,
            TomlValue::Datetime(..) => "datetime"@,
            TomlValue::Array(..) => "array"@,
            TomlValue::Table(..) => "table"@,
        }
    }

    /// The name of the value's type, as TOML names it.
    pub fn type_str(&self) -> (r: &'static str)
        ensures
            r@ == self.kind_text(),
    {
        match self {
            TomlValue::Str(..) => "string",
            TomlValue::Integer(..) => "integer",
            TomlValue::Float(..) => "float",
            TomlValue::Boolean(..) => "boolean",
            TomlValue::Datetime(..) => "datetime",
            TomlValue::Array(..) => "array",
            TomlValue::Table(..) => "table",
        }
    }
}

/// Turn a value into a String provided it is not a table and does not
/// contain a table. If `quote_strings` is true, a string is returned
/// surrounded by double quotes.
///
/// # Errors:
/// Returns Error::Config if `val` is or contains a table.
pub fn value_to_string(val: &TomlValue, quote_strings: bool) -> (r: Result<String, Error>)
    ensures
        match r {
            Ok(s) => value_text(*val, quote_strings) == Some(s@),
            Err(e) => {
                &&& value_text(*val, quote_strings) is None
                &&& e matches Error::Config(m) && m@ == table_in_vars_message()
            },
        },
    decreases val,
{
    match val {
        TomlValue::Str(s) => {
            if quote_strings {
                let mut r = String::new();
                push_char(&mut r, '"');
                r.append(s.as_str());
                push_char(&mut r, '"');
                Ok(r)
            } else {
                Ok(String::from_str(s.as_str()))
            }
        },
        TomlValue::Integer(i) => Ok(int_to_string(*i)),
        TomlValue::Float(t) => Ok(String::from_str(t.as_str())),
        TomlValue::Boolean(b) => {
            if *b {
                Ok(String::from_str("true"))
            } else {
                Ok(String::from_str("false"))
            }
        },
        TomlValue::Datetime(t) => Ok(String::from_str(t.as_str())),
        TomlValue::Array(items) => {
            let mut acc = String::new();
            push_char(&mut acc, '[');
            let mut i: usize = 0;
            assert(items@.take(0) =~= Seq::<TomlValue>::empty());
            while i < items.len()
                invariant
                    *val == TomlValue::Array(*items),
                    i <= items@.len(),
                    items_text(items@.take(i as int)) is Some,
                    acc@ == seq!['['] + items_text(items@.take(i as int))->0,
                decreases items@.len() - i,
            {
                assert(items@.take(i + 1).drop_last() =~= items@.take(i as int));
                assert(items@.take(i + 1).last() == items@[i as int]);
                assert(decreases_to!(*val => items@[i as int]));
                match value_to_string(&items[i], true) {
                    Ok(t) => {
                        acc.append(t.as_str());
                        push_char(&mut acc, ',');
                        i = i + 1;
                    },
                    Err(e) => {
                        proof {
                            lemma_items_text_none(items@, i + 1);
                        }
                        return Err(e);
                    },
                }
            }
            assert(items@.take(items@.len() as int) =~= items@);
            pop_char(&mut acc);
            push_char(&mut acc, ']');
            Ok(acc)
        },
        TomlValue::Table(_) => Err(
            new_config(String::from_str("invalid 'vars': 'vars' is not allowed to be a table")),
        ),
    }
}

/// Only strings are quoted: every other value renders the same whether or
/// not quoting is asked for. A float and a date-time render as the text they
/// hold, an integer in decimal, a boolean as `true` or `false`, and a string
/// as itself or wrapped in double quotes; a table does not render.
pub proof fn law_only_strings_are_quoted(v: TomlValue, quote: bool)
    ensures
        !(v is Str) ==> value_text(v, true) == value_text(v, false),
        v matches TomlValue::Str(s) ==> value_text(v, false) == Some(s@) && value_text(v, true)
            == Some(seq!['"'] + s@ + seq!['"']),
        v matches TomlValue::Float(t) ==> value_text(v, quote) == Some(t@),
        v matches TomlValue::Datetime(t) ==> value_text(v, quote) == Some(t@),
        v matches TomlValue::Integer(i) ==> value_text(v, quote) == Some(int_text(i as int)),
        v matches TomlValue::Boolean(b) ==> value_text(v, quote) == Some(
            if b {
                "true"@
            } else {
                "false"@
            },
        ),
        v is Table ==> value_text(v, quote) is None,
{
}

/// The items of an array render quoted, each followed by ',': a
/// non-empty array whose items all render is "[" then its items joined by
/// ',' then "]"; one item that does not render makes the array not render.
pub proof fn law_array_text(items: Seq<TomlValue>, k: int)
    requires
        0 <= k < items.len(),
    ensures
        value_text(items[k], true) is None ==> items_text(items) is None,
        items_text(items) matches Some(t) ==> {
            &&& value_text(items.last(), true) is Some
            &&& t == items_text(items.drop_last())->0 + value_text(items.last(), true)->0.push(
                ',',
            )
        },
{
    assert(items.take(k + 1).drop_last() =~= items.take(k));
    assert(items.take(k + 1).last() == items[k]);
    if value_text(items[k], true) is None {
        lemma_items_text_none(items, k + 1);
    }
}

} // verus!
