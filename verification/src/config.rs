//! Loading of the configuration: TOML parsing and `hexo.path` extraction.
//!
//! The configuration is a TOML document whose `hexo` table holds a `path`
//! string: the root of the content site.  Parsing is done by the `toml`
//! crate behind trusted wrappers; what a parsed document holds is modelled
//! by [`TomlModel`], and the lookup of `hexo.path` is verified against that
//! model.

use vstd::prelude::*;
use vstd::string::StringExecFns;

verus! {

/// The shape of a parsed TOML value, as far as the loader reads one: a
/// string, a table mapping keys to nested values, or anything else (an
/// integer, a float, a boolean, a datetime, an array).
pub enum TomlModel {
    Str(Seq<char>),
    Table(Map<Seq<char>, TomlModel>),
    Other,
}

#[verifier::external_type_specification]
#[verifier::external_body]
pub struct ExTomlValue(toml::Value);

#[verifier::external_type_specification]
#[verifier::external_body]
pub struct ExTomlDeError(toml::de::Error);

/// What a parsed TOML value holds.
pub uninterp spec fn toml_value_model(v: toml::Value) -> TomlModel;

/// What parsing a TOML document text yields: the model of the parsed
/// value, or `None` where the text is not a valid TOML document.
pub uninterp spec fn toml_document(s: Seq<char>) -> Option<TomlModel>;

/// Relies on `toml::from_str::<toml::Value>`: parsing a TOML document
/// depends on the text alone, succeeds exactly on valid documents, and
/// yields the value the document denotes.
#[verifier::external_body]
fn parse_document(text: &str) -> (r: Result<toml::Value, toml::de::Error>)
    ensures
        match r {
            Ok(v) => toml_document(text@) == Some(toml_value_model(v)),
            Err(_) => toml_document(text@) is None,
        },
{
    toml::from_str::<toml::Value>(text)
}

/// Relies on `toml::Value::get` with a string index: on a table it looks
/// the key up in the table's map, on every other variant it returns `None`.
#[verifier::external_body]
fn value_get<'a>(v: &'a toml::Value, key: &str) -> (r: Option<&'a toml::Value>)
    ensures
        match toml_value_model(*v) {
            TomlModel::Table(t) => {
                &&& r is Some <==> t.contains_key(key@)
                &&& (r matches Some(sub) ==> toml_value_model(*sub) == t[key@])
            },
            _ => r is None,
        },
{
    v.get(key)
}

/// Relies on `toml::Value::as_str`: it returns the held string on the
/// string variant and `None` on every other variant.
#[verifier::external_body]
fn value_as_str(v: &toml::Value) -> (r: Option<&str>)
    ensures
        match toml_value_model(*v) {
            TomlModel::Str(s) => r matches Some(rs) && rs@ == s,
            _ => r is None,
        },
{
    v.as_str()
}

/// Relies on `toml::de::Error::message` for a human-readable account of
/// what went wrong; nothing is claimed of the text.
#[verifier::external_body]
fn parse_error_message(e: &toml::de::Error) -> String
{
    e.message().to_string()
}

/// Why loading the configuration failed.
#[derive(Debug, Clone, PartialEq, Eq)]
pub enum ConfigError {
    /// The configuration file could not be read; carries the reader's message.
    Io(String),
    /// The text is not a valid TOML document; carries the parser's message.
    Parse(String),
    /// The document has no `hexo` table, or no `path` key under it, or the
    /// value there is not a string.
    MissingKey,
}

impl ConfigError {
    /// The diagnostic shown for this error.
    pub open spec fn message_spec(&self) -> Seq<char> {
        match self {
            ConfigError::Io(m) => m@,
            ConfigError::Parse(m) => m@,
            ConfigError::MissingKey => "no hexo path config"@,
        }
    }

    /// A human-readable diagnostic for the error.
    pub fn message(&self) -> (r: String)
        ensures
            r@ == self.message_spec(),
    {
        match self {
            ConfigError::Io(m) => String::from_str(m.as_str()),
            ConfigError::Parse(m) => String::from_str(m.as_str()),
            ConfigError::MissingKey => String::from_str("no hexo path config"),
        }
    }
}

/// The `hexo.path` entry of a configuration document: the string under the
/// `path` key of the `hexo` table, or `None` where the document is not a
/// table, the `hexo` table or `path` key is absent, or the value there is
/// not a string.
pub open spec fn hexo_path_of(m: TomlModel) -> Option<Seq<char>> {
    match m {
        TomlModel::Table(t) => if t.contains_key("hexo"@) {
            match t["hexo"@] {
                TomlModel::Table(h) => if h.contains_key("path"@) {
                    match h["path"@] {
                        TomlModel::Str(s) => Some(s),
                        _ => None,
                    }
                } else {
                    None
                },
                _ => None,
            }
        } else {
            None
        },
        _ => None,
    }
}

/// Parses the configuration text into a TOML document.
///
/// Returns the parsed document exactly where the text is valid TOML, and
/// `ConfigError::Parse` otherwise.
pub fn parse_config(text: &str) -> (r: Result<toml::Value, ConfigError>)
    ensures
        match r {
            Ok(v) => toml_document(text@) == Some(toml_value_model(v)),
            Err(e) => toml_document(text@) is None && e is Parse,
        },
{
    match parse_document(text) {
        Ok(v) => Ok(v),
        Err(e) => Err(ConfigError::Parse(parse_error_message(&e))),
    }
}

/// Extracts the `hexo.path` string from a parsed configuration.
///
/// Returns exactly the string the document holds under `hexo.path`, and
/// `ConfigError::MissingKey` where the document has none.
pub fn extract_hexo_path(config: &toml::Value) -> (r: Result<String, ConfigError>)
    ensures
        match hexo_path_of(toml_value_model(*config)) {
            Some(p) => r matches Ok(s) && s@ == p,
            None => r == Err::<String, ConfigError>(ConfigError::MissingKey),
        },
{
    let hexo = match value_get(config, "hexo") {
        Some(h) => h,
        None => return Err(ConfigError::MissingKey),
    };
    let path_value = match value_get(hexo, "path") {
        Some(p) => p,
        None => return Err(ConfigError::MissingKey),
    };
    match value_as_str(path_value) {
        Some(s) => Ok(String::from_str(s)),
        None => Err(ConfigError::MissingKey),
    }
}

/// Loads the configuration from its text: parses it and extracts
/// `hexo.path`.
///
/// For every valid document holding a `hexo.path` string this returns
/// exactly that string; for a valid document without one it returns
/// `ConfigError::MissingKey`; for invalid TOML it returns
/// `ConfigError::Parse`.
pub fn load_config(text: &str) -> (r: Result<String, ConfigError>)
    ensures
        match toml_document(text@) {
            Some(m) => match hexo_path_of(m) {
                Some(p) => r matches Ok(s) && s@ == p,
                None => r == Err::<String, ConfigError>(ConfigError::MissingKey),
            },
            None => r matches Err(e) && e is Parse,
        },
{
    let config = match parse_config(text) {
        Ok(v) => v,
        Err(e) => return Err(e),
    };
    extract_hexo_path(&config)
}

} // verus!
