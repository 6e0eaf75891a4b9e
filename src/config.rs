use vstd::prelude::*;
use vstd::string::*;

use crate::text::same_text;

verus! {

/// A parsed TOML value, as far as the configuration reads it.
#[derive(Debug)]
pub enum TomlValue {
    Text(String),
    Integer(i64),
    Boolean(bool),
    Array(Vec<TomlValue>),
    Table(Vec<(String, TomlValue)>),
    /// A float or a date-time: never a valid configuration value.
    Other,
}

/// The keys that the configuration file must have.
#[derive(Clone, Copy, Debug, PartialEq, Eq, Structural)]
pub enum ConfigKey {
    Bot,
    Name,
    Developer,
    Description,
    Token,
    Commands,
}

/// Why a configuration document was refused.
#[derive(Clone, Debug, PartialEq)]
pub enum ParseError {
    /// The text is not TOML; the parser's own message.
    Syntax(String),
    /// A mandatory key is absent.
    Missing(ConfigKey),
    /// A key holds a value of the wrong type.
    WrongType(ConfigKey),
}

/// Why the configuration could not be loaded.
#[derive(Clone, Debug, PartialEq)]
pub enum ConfigError {
    /// The file could not be read.
    Io(String),
    /// The file was read but is not a valid configuration.
    Parse(ParseError),
}

/// The bot's configuration: every field is mandatory.
#[derive(Clone, Debug, PartialEq)]
pub struct Configuration {
    pub name: String,
    pub developer: String,
    pub description: String,
    pub token: String,
    pub commands: Vec<String>,
}

/// The configuration as plain sequences.
pub struct ConfigView {
    pub name: Seq<char>,
    pub developer: Seq<char>,
    pub description: Seq<char>,
    pub token: Seq<char>,
    pub commands: Seq<Seq<char>>,
}

impl View for Configuration {
    type V = ConfigView;

    open spec fn view(&self) -> ConfigView {
        ConfigView {
            name: self.name@,
            developer: self.developer@,
            description: self.description@,
            token: self.token@,
            commands: self.commands@.map_values(|s: String| s@),
        }
    }
}

/// The key as written in the file.
pub open spec fn key_name(k: ConfigKey) -> Seq<char> {
    match k {
        ConfigKey::Bot => "bot"@,
        ConfigKey::Name => "name"@,
        ConfigKey::Developer => "developer"@,
        ConfigKey::Description => "description"@,
        ConfigKey::Token => "token"@,
        ConfigKey::Commands => "commands"@,
    }
}

/// The value of the first entry of a table under `key`.
pub open spec fn entry(entries: Seq<(String, TomlValue)>, key: Seq<char>) -> Option<TomlValue>
    decreases entries.len(),
{
    if entries.len() == 0 {
        None
    } else if entries[0].0@ == key {
        Some(entries[0].1)
    } else {
        entry(entries.drop_first(), key)
    }
}

/// A string field of the `bot` table.
pub open spec fn text_field(fields: Seq<(String, TomlValue)>, k: ConfigKey) -> Result<Seq<char>, ParseError> {
    match entry(fields, key_name(k)) {
        None => Err(ParseError::Missing(k)),
        Some(TomlValue::Text(s)) => Ok(s@),
        Some(_) => Err(ParseError::WrongType(k)),
    }
}

/// The characters of a value that is a string, and nothing for any other value.
pub open spec fn text_of(v: TomlValue) -> Seq<char> {
    match v {
        TomlValue::Text(s) => s@,
        _ => Seq::empty(),
    }
}

/// Whether every item is a string.
pub open spec fn all_text(items: Seq<TomlValue>) -> bool {
    forall|i: int| 0 <= i < items.len() ==> (#[trigger] items[i]) is Text
}

/// A list-of-strings field of the `bot` table.
pub open spec fn list_field(fields: Seq<(String, TomlValue)>, k: ConfigKey) -> Result<Seq<Seq<char>>, ParseError> {
    match entry(fields, key_name(k)) {
        None => Err(ParseError::Missing(k)),
        Some(TomlValue::Array(items)) => if all_text(items@) {
            Ok(items@.map_values(|v: TomlValue| text_of(v)))
        } else {
            Err(ParseError::WrongType(k))
        },
        Some(_) => Err(ParseError::WrongType(k)),
    }
}

/// The fields of the `bot` table, checked in the order name, developer,
/// description, token, commands; the first failure is the one reported.
pub open spec fn bot_config(fields: Seq<(String, TomlValue)>) -> Result<ConfigView, ParseError> {
    match (text_field(fields, ConfigKey::Name), text_field(fields, ConfigKey::Developer),
        text_field(fields, ConfigKey::Description), text_field(fields, ConfigKey::Token),
        list_field(fields, ConfigKey::Commands)) {
        (Err(e), _, _, _, _) => Err(e),
        (_, Err(e), _, _, _) => Err(e),
        (_, _, Err(e), _, _) => Err(e),
        (_, _, _, Err(e), _) => Err(e),
        (_, _, _, _, Err(e)) => Err(e),
        (Ok(name), Ok(developer), Ok(description), Ok(token), Ok(commands)) => Ok(
            ConfigView { name, developer, description, token, commands },
        ),
    }
}

/// The `bot` table of a document, if its top level is a table that has one.
pub open spec fn bot_fields(doc: TomlValue) -> Option<Seq<(String, TomlValue)>> {
    match doc {
        TomlValue::Table(top) => match entry(top@, key_name(ConfigKey::Bot)) {
            Some(TomlValue::Table(fields)) => Some(fields@),
            _ => None,
        },
        _ => None,
    }
}

/// The configuration that a parsed document holds: its top level is a table with a
/// `bot` table, whose fields are read by `bot_config`.
pub open spec fn config_of(doc: TomlValue) -> Result<ConfigView, ParseError> {
    match doc {
        TomlValue::Table(top) => match entry(top@, key_name(ConfigKey::Bot)) {
            None => Err(ParseError::Missing(ConfigKey::Bot)),
            Some(TomlValue::Table(fields)) => bot_config(fields@),
            Some(_) => Err(ParseError::WrongType(ConfigKey::Bot)),
        },
        _ => Err(ParseError::Missing(ConfigKey::Bot)),
    }
}

/// Whether a key of the `bot` table is present with a value of its type.
pub open spec fn field_valid(fields: Seq<(String, TomlValue)>, k: ConfigKey) -> bool {
    if k == ConfigKey::Commands {
        list_field(fields, k) is Ok
    } else {
        text_field(fields, k) is Ok
    }
}

/// No key has a default: a document gives a configuration exactly when it has a
/// `bot` table in which every key is present with a value of its type; otherwise
/// reading it fails with a parse error.
pub proof fn lemma_config_needs_every_key(doc: TomlValue)
    ensures
        config_of(doc) is Ok <==> (bot_fields(doc) is Some && forall|k: ConfigKey|
            k != ConfigKey::Bot ==> #[trigger] field_valid(bot_fields(doc).unwrap(), k)),
{
    if bot_fields(doc) is Some {
        let f = bot_fields(doc).unwrap();
        if config_of(doc) is Ok {
            assert forall|k: ConfigKey| k != ConfigKey::Bot implies #[trigger] field_valid(f, k) by {
                match k {
                    ConfigKey::Bot => {},
                    ConfigKey::Name => {},
                    ConfigKey::Developer => {},
                    ConfigKey::Description => {},
                    ConfigKey::Token => {},
                    ConfigKey::Commands => {},
                }
            }
        } else {
            assert(!field_valid(f, ConfigKey::Name) || !field_valid(f, ConfigKey::Developer)
                || !field_valid(f, ConfigKey::Description) || !field_valid(f, ConfigKey::Token)
                || !field_valid(f, ConfigKey::Commands));
        }
    }
}

/// A configuration read from a document holds exactly the document's values: each
/// string field is the string stored under its key in the `bot` table, and the
/// commands are the strings of the `commands` array, in order.
pub proof fn lemma_config_matches_document(doc: TomlValue, c: ConfigView)
    requires
        config_of(doc) == Ok::<ConfigView, ParseError>(c),
    ensures
        bot_fields(doc) is Some,
        entry(bot_fields(doc).unwrap(), "name"@).unwrap() is Text,
        entry(bot_fields(doc).unwrap(), "name"@).unwrap()->Text_0@ == c.name,
        entry(bot_fields(doc).unwrap(), "developer"@).unwrap() is Text,
        entry(bot_fields(doc).unwrap(), "developer"@).unwrap()->Text_0@ == c.developer,
        entry(bot_fields(doc).unwrap(), "description"@).unwrap() is Text,
        entry(bot_fields(doc).unwrap(), "description"@).unwrap()->Text_0@ == c.description,
        entry(bot_fields(doc).unwrap(), "token"@).unwrap() is Text,
        entry(bot_fields(doc).unwrap(), "token"@).unwrap()->Text_0@ == c.token,
        entry(bot_fields(doc).unwrap(), "commands"@).unwrap() is Array,
        entry(bot_fields(doc).unwrap(), "commands"@).unwrap()->Array_0@.len() == c.commands.len(),
        forall|i: int| 0 <= i < c.commands.len() ==> (#[trigger] entry(bot_fields(doc).unwrap(), "commands"@).unwrap()->Array_0@[i])
            == TomlValue::Text(entry(bot_fields(doc).unwrap(), "commands"@).unwrap()->Array_0@[i]->Text_0)
            && entry(bot_fields(doc).unwrap(), "commands"@).unwrap()->Array_0@[i]->Text_0@ == c.commands[i],
{
}

impl ConfigKey {
    /// The key as written in the file.
    pub fn name(&self) -> (r: &'static str)
        ensures
            r@ == key_name(*self),
    {
        match self {
            ConfigKey::Bot => "bot",
            ConfigKey::Name => "name",
            ConfigKey::Developer => "developer",
            ConfigKey::Description => "description",
            ConfigKey::Token => "token",
            ConfigKey::Commands => "commands",
        }
    }
}

/// Finds the first entry of a table under `key`.
pub fn find_entry<'a>(entries: &'a Vec<(String, TomlValue)>, key: &str) -> (r: Option<&'a TomlValue>)
    ensures
        match r {
            Some(v) => entry(entries@, key@) == Some(*v),
            None => entry(entries@, key@) is None,
        },
{
    let mut i: usize = 0;
    assert(entries@.subrange(0, entries@.len() as int) =~= entries@);
    while i < entries.len()
        invariant
            i <= entries@.len(),
            entry(entries@, key@) == entry(entries@.subrange(i as int, entries@.len() as int), key@),
        decreases entries@.len() - i,
    {
        let ghost rest = entries@.subrange(i as int, entries@.len() as int);
        assert(rest[0] == entries@[i as int]);
        if same_text(entries[i].0.as_str(), key) {
            return Some(&entries[i].1);
        }
        assert(rest.drop_first() =~= entries@.subrange(i as int + 1, entries@.len() as int));
        i = i + 1;
    }
    None
}

fn read_text(fields: &Vec<(String, TomlValue)>, k: ConfigKey) -> (r: Result<String, ParseError>)
    ensures
        match r {
            Ok(s) => text_field(fields@, k) == Ok::<Seq<char>, ParseError>(s@),
            Err(e) => text_field(fields@, k) == Err::<Seq<char>, ParseError>(e),
        },
{
    match find_entry(fields, k.name()) {
        None => Err(ParseError::Missing(k)),
        Some(TomlValue::Text(s)) => Ok(s.clone()),
        Some(_) => Err(ParseError::WrongType(k)),
    }
}

fn read_list(fields: &Vec<(String, TomlValue)>, k: ConfigKey) -> (r: Result<Vec<String>, ParseError>)
    ensures
        match r {
            Ok(v) => list_field(fields@, k) == Ok::<Seq<Seq<char>>, ParseError>(v@.map_values(|s: String| s@)),
            Err(e) => list_field(fields@, k) == Err::<Seq<Seq<char>>, ParseError>(e),
        },
{
    match find_entry(fields, k.name()) {
        None => Err(ParseError::Missing(k)),
        Some(TomlValue::Array(items)) => {
            let mut out: Vec<String> = Vec::new();
            let mut i: usize = 0;
            while i < items.len()
                invariant
                    entry(fields@, key_name(k)) == Some(TomlValue::Array(*items)),
                    i <= items@.len(),
                    out@.len() == i,
                    forall|j: int| 0 <= j < i ==> (#[trigger] items@[j]) is Text,
                    forall|j: int| 0 <= j < i ==> (#[trigger] out@[j])@ == text_of(items@[j]),
                decreases items@.len() - i,
            {
                match &items[i] {
                    TomlValue::Text(s) => out.push(s.clone()),
                    _ => {
                        assert(!(items@[i as int] is Text));
                        assert(!all_text(items@));
                        return Err(ParseError::WrongType(k));
                    },
                }
                i = i + 1;
            }
            assert(all_text(items@));
            assert(out@.map_values(|s: String| s@) =~= items@.map_values(|v: TomlValue| text_of(v)));
            Ok(out)
        },
        Some(_) => Err(ParseError::WrongType(k)),
    }
}

impl Configuration {
    /// Reads the configuration out of a parsed document. No field has a default:
    /// a missing key or a value of the wrong type is an error.
    pub fn from_document(doc: &TomlValue) -> (r: Result<Configuration, ParseError>)
        ensures
            match r {
                Ok(c) => config_of(*doc) == Ok::<ConfigView, ParseError>(c@),
                Err(e) => config_of(*doc) == Err::<ConfigView, ParseError>(e),
            },
    {
        let top = match doc {
            TomlValue::Table(top) => top,
            _ => {
                return Err(ParseError::Missing(ConfigKey::Bot));
            },
        };
        let fields = match find_entry(top, ConfigKey::Bot.name()) {
            None => {
                return Err(ParseError::Missing(ConfigKey::Bot));
            },
            Some(TomlValue::Table(fields)) => fields,
            Some(_) => {
                return Err(ParseError::WrongType(ConfigKey::Bot));
            },
        };
        let name = read_text(fields, ConfigKey::Name)?;
        let developer = read_text(fields, ConfigKey::Developer)?;
        let description = read_text(fields, ConfigKey::Description)?;
        let token = read_text(fields, ConfigKey::Token)?;
        let commands = read_list(fields, ConfigKey::Commands)?;
        Ok(Configuration { name, developer, description, token, commands })
    }
}

/// The human-readable cause of a parse error.
pub open spec fn parse_error_text(e: ParseError) -> Seq<char> {
    match e {
        ParseError::Syntax(m) => m@,
        ParseError::Missing(k) => "missing field `"@ + key_name(k) + "`"@,
        ParseError::WrongType(k) => "invalid type for field `"@ + key_name(k) + "`"@,
    }
}

/// The human-readable cause of a configuration error.
pub open spec fn config_error_text(e: ConfigError) -> Seq<char> {
    match e {
        ConfigError::Io(m) => m@,
        ConfigError::Parse(p) => parse_error_text(p),
    }
}

impl ParseError {
    /// The human-readable cause.
    pub fn message(&self) -> (r: String)
        ensures
            r@ == parse_error_text(*self),
    {
        match self {
            ParseError::Syntax(m) => m.clone(),
            ParseError::Missing(k) => {
                let mut r = String::from_str("missing field `");
                r.append(k.name());
                r.append("`");
                r
            },
            ParseError::WrongType(k) => {
                let mut r = String::from_str("invalid type for field `");
                r.append(k.name());
                r.append("`");
                r
            },
        }
    }
}

impl ConfigError {
    /// The human-readable cause.
    pub fn message(&self) -> (r: String)
        ensures
            r@ == config_error_text(*self),
    {
        match self {
            ConfigError::Io(m) => m.clone(),
            ConfigError::Parse(p) => p.message(),
        }
    }
}

} // verus!
