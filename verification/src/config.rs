//! The configuration: a tree of tables, each of which may give the commands,
//! the base directory and the user variables for a language or for a
//! variant of the configuration.

use vstd::prelude::*;

use crate::constants::{GO_DEFAULT, NEW_DEFAULT, OPEN_DEFAULT};
use crate::errors::{new_config, new_config_parse, Error};
use crate::external::{parse_toml_table, toml_entries, toml_parses};
use crate::keyed::{first_key_index, keys_distinct, lemma_first_key_index, position_of_key, value_of};
use crate::value::{table_well_keyed, TomlValue};

verus! {

/// Used to get a specific `Config` from the config file
pub struct ConfigKey<'a> {
    language: &'a str,
    variant: Option<&'a String>,
}

/// The text of an optional string.
pub open spec fn opt_text(o: Option<&String>) -> Option<Seq<char>> {
    match o {
        Some(s) => Some(s@),
        None => None,
    }
}

impl<'a> ConfigKey<'a> {
    /// The language that the key names.
    pub closed spec fn lang(&self) -> Seq<char> {
        self.language@
    }

    /// The variant that the key names, if any.
    pub closed spec fn variant_text(&self) -> Option<Seq<char>> {
        opt_text(self.variant)
    }

    /// A key for `language`, within `variant` if one is given.
    pub fn new(language: &'a str, variant: Option<&'a String>) -> (r: Self)
        ensures
            r.lang() == language@,
            r.variant_text() == opt_text(variant),
    {
        Self { language, variant }
    }
}

/// One table of the configuration. Every field but the user variables is
/// inherited by the tables below, through the lookups of `Config`.
pub struct Config {
    // Root directory that all language folders get put in
    base_dir: Option<String>,
    // Shell script to execute when the 'go' subcommand is invoked
    go_cmd: Option<String>,
    // Shell script to execute when the 'new' subcommand is invoked
    new_cmd: Option<String>,
    // Shell script to execute when the 'open' subcommand is invoked
    open_cmd: Option<String>,
    // The sub-configs, by table name: variants or languages at the root,
    // languages below a variant.
    table: Vec<(String, Config)>,
    // The user variables of this table; they are not inherited.
    user_vars: Vec<(String, TomlValue)>,
}

/// The text of an optional owned string.
pub open spec fn field_text(o: Option<String>) -> Option<Seq<char>> {
    match o {
        Some(s) => Some(s@),
        None => None,
    }
}

impl Config {
    /// The base directory that this table itself gives.
    pub closed spec fn own_base_dir(&self) -> Option<Seq<char>> {
        field_text(self.base_dir)
    }

    /// The 'go' command that this table itself gives.
    pub closed spec fn own_go_cmd(&self) -> Option<Seq<char>> {
        field_text(self.go_cmd)
    }

    /// The 'new' command that this table itself gives.
    pub closed spec fn own_new_cmd(&self) -> Option<Seq<char>> {
        field_text(self.new_cmd)
    }

    /// The 'open' command that this table itself gives.
    pub closed spec fn own_open_cmd(&self) -> Option<Seq<char>> {
        field_text(self.open_cmd)
    }

    /// The user variables of this table.
    pub closed spec fn own_vars(&self) -> Seq<(String, TomlValue)> {
        self.user_vars@
    }

    /// The sub-tables of this table, by name.
    pub closed spec fn children(&self) -> Seq<(String, Config)> {
        self.table@
    }

    /// Each table's sub-tables have distinct names, and its user variables
    /// distinct keys, as those of a parsed TOML table do.
    pub open spec fn well_formed(&self) -> bool
        decreases self,
    {
        &&& keys_distinct(self.children())
        &&& keys_distinct(self.own_vars())
        &&& forall|j: int|
            #![trigger self.children()[j]]
            0 <= j < self.children().len() ==> self.children()[j].1.well_formed()
    }

    /// The sub-table called `name`.
    pub open spec fn child(&self, name: Seq<char>) -> Option<Config> {
        value_of(self.children(), name)
    }

    /// The table that a language and an optional variant select: the
    /// language's table within the variant's table where both exist, and
    /// otherwise the language's table at the root.
    pub open spec fn resolve(&self, lang: Seq<char>, variant: Option<Seq<char>>) -> Option<Config> {
        match variant {
            Some(v) => match self.child(v) {
                Some(cv) => match cv.child(lang) {
                    Some(c) => Some(c),
                    None => self.child(lang),
                },
                None => self.child(lang),
            },
            None => self.child(lang),
        }
    }

    /// The table that `key` selects.
    pub open spec fn selected(&self, key: &ConfigKey) -> Option<Config> {
        self.resolve(key.lang(), key.variant_text())
    }

    /// A field of the selected table if it is set there, else the field
    /// of this table if it is set, else `default`.
    pub open spec fn inherited(
        selected: Option<Option<Seq<char>>>,
        root: Option<Seq<char>>,
        default: Seq<char>,
    ) -> Seq<char> {
        match selected {
            Some(Some(t)) => t,
            _ => match root {
                Some(t) => t,
                None => default,
            },
        }
    }

    /// The sub-table called `name`.
    fn find_child(&self, name: &str) -> (r: Option<&Config>)
        ensures
            match r {
                Some(c) => self.child(name@) == Some(*c),
                None => self.child(name@) is None,
            },
    {
        match position_of_key(&self.table, name) {
            Some(i) => Some(&self.table[i].1),
            None => None,
        }
    }

    /// Retrieves the config associated with the provided key, or returns None.
    /// The resolution works as follows:
    /// If key has a variant set:
    ///     if config = self[key.variant]:
    ///         if config = config[key.lang]:
    ///             return config
    /// If config = self[key.lang]:
    ///     return config
    /// return None
    pub fn get_config(&self, key: &ConfigKey) -> (r: Option<&Config>)
        ensures
            match r {
                Some(c) => self.selected(key) == Some(*c),
                None => self.selected(key) is None,
            },
    {
        let ghost lang = key.lang();
        let ghost var = key.variant_text();
        let ghost res = self.selected(key);
        // set up key stack
        let mut keys: Vec<&str> = Vec::with_capacity(2);
        keys.push(key.language);
        match key.variant {
            Some(v) => keys.push(v.as_str()),
            None => {},
        }
        // set up config stack
        let mut config: Vec<&Config> = Vec::with_capacity(keys.len());
        config.push(self);

        // while there are keys on the stack
        while keys.len() > 0
            invariant
                lang == key.lang(),
                var == key.variant_text(),
                res == self.resolve(lang, var),
                keys@.len() <= 2,
                keys@.len() >= 1 ==> keys@[0]@ == lang,
                keys@.len() == 2 ==> var == Some(keys@[1]@) && config@ == seq![self],
                keys@.len() == 1 ==> {
                    ||| config@ == seq![self] && res == self.child(lang)
                    ||| config@.len() == 0 && res == self.child(lang)
                    ||| config@.len() == 2 && config@[0] == self && var is Some && self.child(
                        var->0,
                    ) == Some(*config@[1])
                },
                keys@.len() == 0 ==> {
                    ||| config@.len() == 0 && res is None
                    ||| config@.len() > 0 && res == Some(*config@.last())
                },
            decreases 3 * keys@.len() + config@.len(),
        {
            let k = keys[keys.len() - 1];
            let top: &Config = if config.len() > 0 {
                config[config.len() - 1]
            } else {
                self
            };
            // If the config at the top of the stack contains the current key,
            // pop the current key and push the retrieved config; otherwise
            // pop the current config to search its parent.
            match top.find_child(k) {
                Some(conf) => {
                    keys.pop();
                    config.push(conf);
                },
                None => {
                    config.pop();
                },
            }
            // At the root with the key not found: drop the key and search for
            // the next one.
            if config.len() == 0 {
                keys.pop();
            }
        }
        // return the config at the top of the stack
        config.pop()
    }

    /// The base directory of the selected table if it gives one, else the
    /// root's if it gives one, else `default`.
    pub open spec fn base_dir_at(
        &self,
        lang: Seq<char>,
        variant: Option<Seq<char>>,
        default: Seq<char>,
    ) -> Seq<char> {
        Self::inherited(
            match self.resolve(lang, variant) {
                Some(c) => Some(c.own_base_dir()),
                None => None,
            },
            self.own_base_dir(),
            default,
        )
    }

    /// The 'go' command of the selected table if it gives one, else the
    /// root's if it gives one, else `GO_DEFAULT`.
    pub open spec fn go_cmd_at(&self, lang: Seq<char>, variant: Option<Seq<char>>) -> Seq<char> {
        Self::inherited(
            match self.resolve(lang, variant) {
                Some(c) => Some(c.own_go_cmd()),
                None => None,
            },
            self.own_go_cmd(),
            GO_DEFAULT@,
        )
    }

    /// The 'new' command of the selected table if it gives one, else the
    /// root's if it gives one, else `NEW_DEFAULT`.
    pub open spec fn new_cmd_at(&self, lang: Seq<char>, variant: Option<Seq<char>>) -> Seq<char> {
        Self::inherited(
            match self.resolve(lang, variant) {
                Some(c) => Some(c.own_new_cmd()),
                None => None,
            },
            self.own_new_cmd(),
            NEW_DEFAULT@,
        )
    }

    /// The 'open' command of the selected table if it gives one, else the
    /// root's if it gives one, else `OPEN_DEFAULT`.
    pub open spec fn open_cmd_at(&self, lang: Seq<char>, variant: Option<Seq<char>>) -> Seq<char> {
        Self::inherited(
            match self.resolve(lang, variant) {
                Some(c) => Some(c.own_open_cmd()),
                None => None,
            },
            self.own_open_cmd(),
            OPEN_DEFAULT@,
        )
    }

    /// The user variables of the selected table, or of the root when no
    /// table is selected.
    pub open spec fn vars_at(&self, lang: Seq<char>, variant: Option<Seq<char>>) -> Seq<(String, TomlValue)> {
        match self.resolve(lang, variant) {
            Some(c) => c.own_vars(),
            None => self.own_vars(),
        }
    }

    /// Return base_dir from config or default.
    /// Lookup is as follows:
    /// base_dir = if config = self.get_config(key) {
    ///     config.base_dir
    /// } else {
    ///     self.base_dir
    /// };
    /// return base_dir or default
    pub fn base_dir<'b>(&'b self, key: &ConfigKey, default: &'b str) -> (r: &'b str)
        ensures
            r@ == self.base_dir_at(key.lang(), key.variant_text(), default@),
    {
        match self.get_config(key) {
            Some(c) => match &c.base_dir {
                Some(d) => {
                    return d.as_str();
                },
                None => {},
            },
            None => {},
        }
        match &self.base_dir {
            Some(d) => d.as_str(),
            None => default,
        }
    }

    /// Whether the table that `key` selects, or the root, gives a base
    /// directory, so that `base_dir` does not fall back on its default.
    pub fn gives_base_dir(&self, key: &ConfigKey) -> (r: bool)
        ensures
            r == ((self.selected(key) matches Some(c) && c.own_base_dir() is Some)
                || self.own_base_dir() is Some),
    {
        match self.get_config(key) {
            Some(c) => {
                if c.base_dir.is_some() {
                    return true;
                }
            },
            None => {},
        }
        self.base_dir.is_some()
    }

    /// Return go_cmd from config or default.
    pub fn go_cmd(&self, key: &ConfigKey) -> (r: &str)
        ensures
            r@ == self.go_cmd_at(key.lang(), key.variant_text()),
    {
        match self.get_config(key) {
            Some(c) => match &c.go_cmd {
                Some(d) => {
                    return d.as_str();
                },
                None => {},
            },
            None => {},
        }
        match &self.go_cmd {
            Some(d) => d.as_str(),
            None => GO_DEFAULT,
        }
    }

    /// Return new_cmd from config or default.
    pub fn new_cmd(&self, key: &ConfigKey) -> (r: &str)
        ensures
            r@ == self.new_cmd_at(key.lang(), key.variant_text()),
    {
        match self.get_config(key) {
            Some(c) => match &c.new_cmd {
                Some(d) => {
                    return d.as_str();
                },
                None => {},
            },
            None => {},
        }
        match &self.new_cmd {
            Some(d) => d.as_str(),
            None => NEW_DEFAULT,
        }
    }

    /// Return open_cmd from config or default.
    pub fn open_cmd(&self, key: &ConfigKey) -> (r: &str)
        ensures
            r@ == self.open_cmd_at(key.lang(), key.variant_text()),
    {
        match self.get_config(key) {
            Some(c) => match &c.open_cmd {
                Some(d) => {
                    return d.as_str();
                },
                None => {},
            },
            None => {},
        }
        match &self.open_cmd {
            Some(d) => d.as_str(),
            None => OPEN_DEFAULT,
        }
    }

    /// The user variables of the selected table, or of the root.
    pub fn user_vars(&self, key: &ConfigKey) -> (r: &Vec<(String, TomlValue)>)
        ensures
            r@ == self.vars_at(key.lang(), key.variant_text()),
    {
        match self.get_config(key) {
            Some(c) => &c.user_vars,
            None => &self.user_vars,
        }
    }

    /// Reads the string under `key`, if there is one.
    ///
    /// # Errors:
    /// Returns Error::Config if the value under `key` is not a string.
    fn get_str_value(table: &Vec<(String, TomlValue)>, key: &str) -> (r: Result<
        Option<String>,
        Error,
    >)
        ensures
            match r {
                Ok(o) => str_field(table@, key@) == Ok::<Option<Seq<char>>, Seq<char>>(
                    field_text(o),
                ),
                Err(e) => {
                    &&& str_field(table@, key@) is Err
                    &&& e matches Error::Config(m) && m@ == str_field(table@, key@)->Err_0
                },
            },
    {
        match position_of_key(table, key) {
            None => Ok(None),
            Some(i) => match &table[i].1 {
                TomlValue::Str(s) => Ok(Some(s.clone())),
                v => {
                    let mut m = String::from_str("Malformed Config: Invalid type ");
                    m.append(v.type_str());
                    m.append(" for key ");
                    m.append(key);
                    Err(new_config(m))
                },
            },
        }
    }

    /// Builds a config from the entries of a TOML table, in the order the
    /// table yields them (sorted by key). The first entry of each of 'base_dir', 'go', 'new',
    /// 'open' and 'vars' gives that field; every other entry must be a
    /// table, which becomes a sub-config under its key.
    ///
    /// # Errors:
    /// Returns Error::Config if one of 'base_dir', 'go', 'new' and 'open' is
    /// given and is not a string, if 'vars' is given and is not a table, or
    /// if any other key does not map to a table that itself builds a config.
    pub fn from_table(table: Vec<(String, TomlValue)>) -> (r: Result<Config, Error>)
        requires
            table_well_keyed(table@),
        ensures
            match r {
                Ok(c) => table_error(table@) is None && describes(c, table@) && c.well_formed(),
                Err(e) => {
                    &&& table_error(table@) is Some
                    &&& e matches Error::Config(m) && m@ == table_error(table@)->0
                },
            },
        decreases table,
    {
        let base_dir = match Self::get_str_value(&table, "base_dir") {
            Ok(v) => v,
            Err(e) => {
                return Err(e);
            },
        };
        let go_cmd = match Self::get_str_value(&table, "go") {
            Ok(v) => v,
            Err(e) => {
                return Err(e);
            },
        };
        let new_cmd = match Self::get_str_value(&table, "new") {
            Ok(v) => v,
            Err(e) => {
                return Err(e);
            },
        };
        let open_cmd = match Self::get_str_value(&table, "open") {
            Ok(v) => v,
            Err(e) => {
                return Err(e);
            },
        };
        let vars_at = position_of_key(&table, "vars");
        match vars_at {
            Some(iv) => {
                if !matches!(&table[iv].1, TomlValue::Table(_)) {
                    return Err(new_config(String::from_str("parsing config: 'vars' must be a table")));
                }
            },
            None => {},
        }
        let base_at = position_of_key(&table, "base_dir");
        let go_at = position_of_key(&table, "go");
        let new_at = position_of_key(&table, "new");
        let open_at = position_of_key(&table, "open");
        let ghost t = table@;
        proof {
            broadcast use vstd::std_specs::vec::axiom_spec_len;

            assert(table.len() == t.len());
            lemma_first_key_index(t, "base_dir"@);
            lemma_first_key_index(t, "go"@);
            lemma_first_key_index(t, "new"@);
            lemma_first_key_index(t, "open"@);
            lemma_first_key_index(t, "vars"@);
            assert(t.skip(0) =~= t);
        }
        assert(header_error(t) is None);

        // Map the remaining keys to configs, in order, or fail on the first
        // one that cannot be.
        let mut rest = table;
        let mut user_vars: Vec<(String, TomlValue)> = Vec::new();
        let mut children: Vec<(String, Config)> = Vec::new();
        let mut i: usize = 0;
        while rest.len() > 0
            invariant
                t == table@,
                table_well_keyed(t),
                t.len() <= usize::MAX,
                i <= t.len(),
                rest@ == t.skip(i as int),
                header_error(t) is None,
                opt_index(base_at) == first_key_index(t, "base_dir"@),
                opt_index(go_at) == first_key_index(t, "go"@),
                opt_index(new_at) == first_key_index(t, "new"@),
                opt_index(open_at) == first_key_index(t, "open"@),
                opt_index(vars_at) == first_key_index(t, "vars"@),
                reserved_found(t, "base_dir"@),
                reserved_found(t, "go"@),
                reserved_found(t, "new"@),
                reserved_found(t, "open"@),
                reserved_found(t, "vars"@),
                entries_error(t, 0) == entries_error(t, i as int),
                remaining(t, 0).len() == children@.len() + remaining(t, i as int).len(),
                forall|j: int|
                    0 <= j < remaining(t, i as int).len() ==> remaining(t, 0)[children@.len() + j]
                        == #[trigger] remaining(t, i as int)[j],
                forall|j: int|
                    #![trigger children@[j]]
                    0 <= j < children@.len() ==> {
                        &&& children@[j].0 == remaining(t, 0)[j].0
                        &&& remaining(t, 0)[j].1 matches TomlValue::Table(sub) && describes(
                            children@[j].1,
                            sub@,
                        )
                        &&& children@[j].1.well_formed()
                    },
                match first_key_index(t, "vars"@) {
                    Some(iv) => (iv < i ==> user_vars@ == vars_entries(t)) && (iv >= i
                        ==> user_vars@.len() == 0),
                    None => user_vars@.len() == 0,
                },
            decreases rest@.len(),
        {
            let ghost before = children@;
            assert(i < t.len());
            proof {
                lemma_remaining_step(t, i as int);
            }
            let (k, v) = rest.remove(0);
            assert(t[i as int] == (k, v));
            assert(rest@ =~= t.skip(i + 1));
            let at_vars = is_at(vars_at, i);
            let consumed = is_at(base_at, i) || is_at(go_at, i) || is_at(new_at, i) || is_at(
                open_at,
                i,
            ) || at_vars;
            assert(consumed == is_consumed(t, i as int));
            if at_vars {
                match v {
                    TomlValue::Table(vt) => {
                        user_vars = vt;
                    },
                    _ => {},
                }
            } else if !consumed {
                match v {
                    TomlValue::Table(sub) => {
                        assert(decreases_to!(table => sub));
                        match Config::from_table(sub) {
                            Ok(c) => {
                                assert(remaining(t, i as int)[0] == t[i as int]);
                                assert(remaining(t, 0)[before.len() as int] == t[i as int]);
                                children.push((k, c));
                                assert(children@[before.len() as int] == (k, c));
                            },
                            Err(e) => {
                                return Err(e);
                            },
                        }
                    },
                    _ => {
                        let mut m = String::from_str("parsing config: Unkown key '");
                        m.append(k.as_str());
                        m.append("' in config");
                        return Err(new_config(m));
                    },
                }
            }
            assert forall|j: int|
                0 <= j < remaining(t, i + 1).len() implies remaining(t, 0)[children@.len() + j]
                == #[trigger] remaining(t, i + 1)[j] by {
                if !consumed {
                    assert(remaining(t, i as int)[j + 1] == remaining(t, i + 1)[j]);
                }
            }
            i = i + 1;
        }
        assert(i == t.len());
        assert(remaining(t, i as int).len() == 0);
        assert(entries_error(t, i as int) is None);
        assert(table_error(t) is None);
        assert(user_vars@ == vars_entries(t));
        proof {
            lemma_remaining_keys_distinct(t, 0);
            assert(keys_distinct(children@));
            match first_key_index(t, "vars"@) {
                Some(iv) => {
                    assert(t[iv].1 matches TomlValue::Table(v) ==> table_well_keyed(v@));
                },
                None => {},
            }
        }
        let c = Config { base_dir, go_cmd, new_cmd, open_cmd, table: children, user_vars };
        assert(keys_distinct(c.children()));
        assert(keys_distinct(c.own_vars()));
        assert(forall|j: int|
            #![trigger c.children()[j]]
            0 <= j < c.children().len() ==> c.children()[j].1.well_formed());
        assert(c.well_formed());
        Ok(c)
    }
}

/// The config that a TOML document describes.
///
/// # Errors:
/// Returns an Error::ConfigParse if toml cannot parse the text as a table,
/// and otherwise an Error::Config where `from_table` gives one.
pub fn config_from_text(text: &str) -> (r: Result<Config, Error>)
    ensures
        !toml_parses(text@) ==> (r matches Err(Error::ConfigParse(s, _)) && s@
            == "parsing config toml: "@),
        toml_parses(text@) ==> match r {
            Ok(c) => {
                &&& table_error(toml_entries(text@)) is None
                &&& describes(c, toml_entries(text@))
                &&& c.well_formed()
            },
            Err(e) => {
                &&& table_error(toml_entries(text@)) is Some
                &&& e matches Error::Config(m) && m@ == table_error(toml_entries(text@))->0
            },
        },
{
    match parse_toml_table(text) {
        Ok(table) => Config::from_table(table),
        Err(e) => Err(new_config_parse(String::from_str("parsing config toml: "), e)),
    }
}

/// How a language and an optional variant select a table: the language's
/// table inside the variant's table when both exist, else the language's
/// table at the root, else none.
pub proof fn law_resolve(cfg: Config, lang: Seq<char>, variant: Option<Seq<char>>)
    ensures
        (variant is Some && cfg.child(variant->0) is Some && cfg.child(variant->0)->0.child(lang) is Some)
            ==> cfg.resolve(lang, variant) == cfg.child(variant->0)->0.child(lang),
        !(variant is Some && cfg.child(variant->0) is Some && cfg.child(variant->0)->0.child(lang) is Some)
            ==> cfg.resolve(lang, variant) == cfg.child(lang),
{
}

/// Each of the commands and the base directory is looked up in the same
/// way: the selected table's own value wins whatever the root gives; the
/// root's value is used only when no table is selected or the selected one
/// gives none; the default only when neither gives one.
pub proof fn law_inherited_lookup(
    cfg: Config,
    lang: Seq<char>,
    variant: Option<Seq<char>>,
    default: Seq<char>,
)
    ensures
        ({
            let sel = cfg.resolve(lang, variant);
            &&& (sel is Some && sel->0.own_go_cmd() is Some) ==> cfg.go_cmd_at(lang, variant) == sel->0.own_go_cmd()->0
            &&& (sel is Some && sel->0.own_new_cmd() is Some) ==> cfg.new_cmd_at(lang, variant) == sel->0.own_new_cmd()->0
            &&& (sel is Some && sel->0.own_open_cmd() is Some) ==> cfg.open_cmd_at(lang, variant) == sel->0.own_open_cmd()->0
            &&& (sel is Some && sel->0.own_base_dir() is Some) ==> cfg.base_dir_at(lang, variant, default) == sel->0.own_base_dir()->0
            &&& !(sel is Some && sel->0.own_go_cmd() is Some) ==> cfg.go_cmd_at(lang, variant) == match cfg.own_go_cmd() {
                Some(t) => t,
                None => "cd '%{path}'"@,
            }
            &&& !(sel is Some && sel->0.own_new_cmd() is Some) ==> cfg.new_cmd_at(lang, variant) == match cfg.own_new_cmd() {
                Some(t) => t,
                None => "mkdir '%{path}'"@,
            }
            &&& !(sel is Some && sel->0.own_open_cmd() is Some) ==> cfg.open_cmd_at(lang, variant) == match cfg.own_open_cmd() {
                Some(t) => t,
                None => "nvim ."@,
            }
            &&& !(sel is Some && sel->0.own_base_dir() is Some) ==> cfg.base_dir_at(lang, variant, default) == match cfg.own_base_dir() {
                Some(t) => t,
                None => default,
            }
            &&& sel is Some ==> cfg.vars_at(lang, variant) == sel->0.own_vars()
            &&& sel is None ==> cfg.vars_at(lang, variant) == cfg.own_vars()
        }),
{
}

/// A variant that the configuration does not define, or that does not
/// define the language, selects what no variant selects.
pub proof fn law_variant_fallback(cfg: Config, lang: Seq<char>, variant: Seq<char>)
    requires
        cfg.child(variant) is None || cfg.child(variant)->0.child(lang) is None,
    ensures
        cfg.resolve(lang, Some(variant)) == cfg.resolve(lang, None),
{
}

/// An optional index, as an integer.
pub open spec fn opt_index(o: Option<usize>) -> Option<int> {
    match o {
        Some(i) => Some(i as int),
        None => None,
    }
}

/// Where the first entry with key `k` lies, it has that key and none
/// before it has.
pub open spec fn reserved_found(t: Seq<(String, TomlValue)>, k: Seq<char>) -> bool {
    match first_key_index(t, k) {
        Some(f) => 0 <= f < t.len() && t[f].0@ == k && forall|j: int|
            0 <= j < f ==> t[j].0@ != k,
        None => forall|j: int| 0 <= j < t.len() ==> t[j].0@ != k,
    }
}

fn is_at(o: Option<usize>, i: usize) -> (r: bool)
    ensures
        r == (o == Some(i)),
{
    match o {
        Some(j) => j == i,
        None => false,
    }
}

/// The keys that a table uses for its own fields.
pub open spec fn is_reserved(k: Seq<char>) -> bool {
    k == "base_dir"@ || k == "go"@ || k == "new"@ || k == "open"@ || k == "vars"@
}

/// The message for a field that is not a string.
pub open spec fn malformed_message(kind: Seq<char>, k: Seq<char>) -> Seq<char> {
    "Malformed Config: Invalid type "@ + kind + " for key "@ + k
}

/// The message for 'vars' that is not a table.
pub open spec fn vars_message() -> Seq<char> {
    "parsing config: 'vars' must be a table"@
}

/// The message for a key that is neither a field nor a table.
pub open spec fn unknown_key_message(k: Seq<char>) -> Seq<char> {
    "parsing config: Unkown key '"@ + k + "' in config"@
}

/// The string under `k`: none, the string, or the message of the error
/// for a value of another type.
pub open spec fn str_field(t: Seq<(String, TomlValue)>, k: Seq<char>) -> Result<
    Option<Seq<char>>,
    Seq<char>,
> {
    match value_of(t, k) {
        None => Ok(None),
        Some(TomlValue::Str(s)) => Ok(Some(s@)),
        Some(v) => Err(malformed_message(v.kind_text(), k)),
    }
}

/// The first error among a table's own fields, in the order 'base_dir',
/// 'go', 'new', 'open', 'vars'.
pub open spec fn header_error(t: Seq<(String, TomlValue)>) -> Option<Seq<char>> {
    if str_field(t, "base_dir"@) is Err {
        Some(str_field(t, "base_dir"@)->Err_0)
    } else if str_field(t, "go"@) is Err {
        Some(str_field(t, "go"@)->Err_0)
    } else if str_field(t, "new"@) is Err {
        Some(str_field(t, "new"@)->Err_0)
    } else if str_field(t, "open"@) is Err {
        Some(str_field(t, "open"@)->Err_0)
    } else if value_of(t, "vars"@) matches Some(v) && !(v is Table) {
        Some(vars_message())
    } else {
        None
    }
}

/// The user variables that a table gives.
pub open spec fn vars_entries(t: Seq<(String, TomlValue)>) -> Seq<(String, TomlValue)> {
    match value_of(t, "vars"@) {
        Some(TomlValue::Table(v)) => v@,
        _ => Seq::empty(),
    }
}

/// Whether entry `i` is the one that gives one of the table's own fields.
pub open spec fn is_consumed(t: Seq<(String, TomlValue)>, i: int) -> bool {
    is_reserved(t[i].0@) && first_key_index(t, t[i].0@) == Some(i)
}

/// The entries from `i` on that name sub-tables, in order.
pub open spec fn remaining(t: Seq<(String, TomlValue)>, i: int) -> Seq<(String, TomlValue)>
    decreases t.len() - i,
{
    if i < 0 || i >= t.len() {
        Seq::empty()
    } else if is_consumed(t, i) {
        remaining(t, i + 1)
    } else {
        seq![t[i]] + remaining(t, i + 1)
    }
}

/// One step of `remaining`.
proof fn lemma_remaining_step(t: Seq<(String, TomlValue)>, i: int)
    requires
        0 <= i < t.len(),
    ensures
        remaining(t, i) == if is_consumed(t, i) {
            remaining(t, i + 1)
        } else {
            seq![t[i]] + remaining(t, i + 1)
        },
{
}

/// Every entry that `remaining` keeps from `i` on is an entry of the
/// table at `i` or after.
proof fn lemma_remaining_from(t: Seq<(String, TomlValue)>, i: int)
    requires
        0 <= i,
    ensures
        forall|j: int|
            0 <= j < remaining(t, i).len() ==> exists|k: int|
                i <= k < t.len() && #[trigger] remaining(t, i)[j] == t[k],
    decreases t.len() - i,
{
    if i < t.len() {
        lemma_remaining_from(t, i + 1);
        lemma_remaining_step(t, i);
        assert forall|j: int| 0 <= j < remaining(t, i).len() implies exists|k: int|
            i <= k < t.len() && #[trigger] remaining(t, i)[j] == t[k] by {
            if !is_consumed(t, i) {
                if j == 0 {
                    assert(remaining(t, i)[0] == t[i]);
                } else {
                    assert(remaining(t, i)[j] == remaining(t, i + 1)[j - 1]);
                }
            } else {
                assert(remaining(t, i)[j] == remaining(t, i + 1)[j]);
            }
        }
    }
}

/// The entries that `remaining` keeps have distinct keys where the
/// table's are.
proof fn lemma_remaining_keys_distinct(t: Seq<(String, TomlValue)>, i: int)
    requires
        0 <= i,
        keys_distinct(t),
    ensures
        keys_distinct(remaining(t, i)),
    decreases t.len() - i,
{
    if i < t.len() {
        lemma_remaining_keys_distinct(t, i + 1);
        lemma_remaining_from(t, i + 1);
        lemma_remaining_step(t, i);
        if !is_consumed(t, i) {
            let r = remaining(t, i);
            let r1 = remaining(t, i + 1);
            assert forall|a: int, b: int| 0 <= a < b < r.len() implies r[a].0@ != r[b].0@ by {
                assert(r[b] == r1[b - 1]);
                if a == 0 {
                    let k = choose|k: int| i + 1 <= k < t.len() && #[trigger] r1[b - 1] == t[k];
                    assert(r[0] == t[i]);
                } else {
                    assert(r[a] == r1[a - 1]);
                }
            }
        }
    }
}

/// The first error among the sub-table entries from `i` on: a value that
/// is not a table, or the error of a sub-table.
pub open spec fn entries_error(t: Seq<(String, TomlValue)>, i: int) -> Option<Seq<char>>
    decreases t, 0nat, t.len() - i,
{
    if i < 0 || i >= t.len() {
        None
    } else if is_consumed(t, i) {
        entries_error(t, i + 1)
    } else {
        match t[i].1 {
            TomlValue::Table(sub) => match table_error(sub@) {
                Some(m) => Some(m),
                None => entries_error(t, i + 1),
            },
            _ => Some(unknown_key_message(t[i].0@)),
        }
    }
}

/// The message of the first error in a table, if it has one.
pub open spec fn table_error(t: Seq<(String, TomlValue)>) -> Option<Seq<char>>
    decreases t, 1nat, 0int,
{
    match header_error(t) {
        Some(m) => Some(m),
        None => entries_error(t, 0),
    }
}

/// `c` is the config that the table `t` describes: its fields are the
/// strings that `t` gives, its user variables those of 'vars', and its
/// sub-configs those of the other entries, in order.
pub open spec fn describes(c: Config, t: Seq<(String, TomlValue)>) -> bool
    decreases c,
{
    &&& str_field(t, "base_dir"@) == Ok::<Option<Seq<char>>, Seq<char>>(c.own_base_dir())
    &&& str_field(t, "go"@) == Ok::<Option<Seq<char>>, Seq<char>>(c.own_go_cmd())
    &&& str_field(t, "new"@) == Ok::<Option<Seq<char>>, Seq<char>>(c.own_new_cmd())
    &&& str_field(t, "open"@) == Ok::<Option<Seq<char>>, Seq<char>>(c.own_open_cmd())
    &&& c.own_vars() == vars_entries(t)
    &&& c.children().len() == remaining(t, 0).len()
    &&& forall|j: int|
        #![trigger c.children()[j]]
        0 <= j < c.children().len() ==> {
            &&& c.children()[j].0 == remaining(t, 0)[j].0
            &&& remaining(t, 0)[j].1 matches TomlValue::Table(sub) && describes(
                c.children()[j].1,
                sub@,
            )
        }
}

} // verus!
