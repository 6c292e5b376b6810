//! The configuration of the facility: the least severity that is emitted and
//! whether an elapsed-time marker prefixes each line; with the hardcoded
//! fallback used when no configuration can be loaded.

use vstd::prelude::*;
use vstd::string::StringExecFns;

use crate::format::{dec_digits, embeds, error_format, spec_compose, tag_shaped};
use crate::level::{level_from_name, spec_level_from_name, LogLevel};
use crate::log::write_error_line;
use crate::result_ext::Describe;

verus! {

/// What the facility is configured to do. `log_level` is the least severity
/// that is emitted; `time` says whether each line carries an elapsed-time
/// prefix.
#[derive(Clone, Copy, PartialEq, Eq, Structural, Debug)]
pub struct Config {
    pub time: bool,
    pub log_level: LogLevel,
}

/// The hardcoded fallback: emit everything, show elapsed time.
pub open spec fn spec_default_config() -> Config {
    Config { time: true, log_level: LogLevel::Trace }
}

impl Default for Config {
    /// The configuration substituted when none can be loaded.
    fn default() -> (c: Config)
        ensures
            c == spec_default_config(),
    {
        Config { time: true, log_level: LogLevel::Trace }
    }
}

/// Why a configuration could not be loaded.
#[derive(Clone, Copy, PartialEq, Eq, Structural, Debug)]
pub enum ConfigError {
    /// The configuration file could not be read at all.
    Io,
    /// The file was read but its contents do not have the expected shape.
    Format,
}

/// The fixed description of each load failure.
pub open spec fn spec_description(e: ConfigError) -> Seq<char> {
    match e {
        ConfigError::Io => "the config file could not be read"@,
        ConfigError::Format => "the config file could not be parsed"@,
    }
}

impl Describe for ConfigError {
    /// One line saying why the configuration could not be loaded.
    fn description(&self) -> (d: String)
        ensures
            d@ == spec_description(*self),
    {
        match self {
            ConfigError::Io => String::from_str("the config file could not be read"),
            ConfigError::Format => String::from_str("the config file could not be parsed"),
        }
    }
}

/// The two fields a configuration document carries, as the `toml` crate
/// reads them: the boolean at `bool_key` and the string at
/// `table_key.tag_key`, or nothing when the document does not parse or
/// either field is missing or of another shape. The result is a function of
/// the document and the keys alone.
pub uninterp spec fn config_fields_of(
    doc: Seq<char>,
    bool_key: Seq<char>,
    table_key: Seq<char>,
    tag_key: Seq<char>,
) -> Option<(bool, Seq<char>)>;

/// Relies on toml::from_str and toml::Value::{get, as_bool, as_str}: parses
/// the document and extracts the boolean at `bool_key` and the string at
/// `table_key.tag_key`; yields nothing when the document is not TOML or
/// either field is missing or of another shape.
#[verifier::external_body]
fn read_config_fields(doc: &str, bool_key: &str, table_key: &str, tag_key: &str) -> (r: Option<
    (bool, String),
>)
    ensures
        r is Some <==> config_fields_of(doc@, bool_key@, table_key@, tag_key@) is Some,
        r matches Some(p) ==> config_fields_of(doc@, bool_key@, table_key@, tag_key@) == Some(
            (p.0, p.1@),
        ),
{
    let value: toml::Value = match toml::from_str(doc) { Ok(v) => v, Err(_) => return None };
    let flag = match value.get(bool_key).and_then(toml::Value::as_bool) { Some(b) => b, None => return None };
    let table = match value.get(table_key) { Some(t) => t, None => return None };
    let name = match table.get(tag_key).and_then(toml::Value::as_str) { Some(n) => n, None => return None };
    Some((flag, name.to_owned()))
}

/// What parsing a configuration document yields: the configuration its two
/// fields describe, or a format error when the document or a field does not
/// have the expected shape.
pub open spec fn spec_parse_config(s: Seq<char>) -> Result<Config, ConfigError> {
    match config_fields_of(s, "time"@, "log_level"@, "type"@) {
        Some(fields) => match spec_level_from_name(fields.1) {
            Some(level) => Ok(Config { time: fields.0, log_level: level }),
            None => Err(ConfigError::Format),
        },
        None => Err(ConfigError::Format),
    }
}

/// The contents of the configuration file as a sequence of characters, or
/// nothing when the file could not be read.
pub open spec fn spec_contents_view(contents: Option<&str>) -> Option<Seq<char>> {
    match contents {
        Some(s) => Some(s@),
        None => None,
    }
}

/// What loading yields from the contents of the configuration file: a read
/// error when there are none, else whatever parsing them yields.
pub open spec fn spec_load(contents: Option<Seq<char>>) -> Result<Config, ConfigError> {
    match contents {
        Some(s) => spec_parse_config(s),
        None => Err(ConfigError::Io),
    }
}

/// What resolution yields: the loaded configuration, or the hardcoded
/// fallback when loading fails.
pub open spec fn spec_resolve(contents: Option<Seq<char>>) -> Config {
    match spec_load(contents) {
        Ok(c) => c,
        Err(_) => spec_default_config(),
    }
}

/// Parses a configuration from the contents of the configuration file
/// (`None` when the file could not be read). Fails with `ConfigError::Io`
/// exactly when there are no contents, and with `ConfigError::Format`
/// exactly when the contents are not TOML, a field is missing or of another
/// shape, or the severity name is not one of the five.
pub fn load_config(contents: Option<&str>) -> (r: Result<Config, ConfigError>)
    ensures
        r == spec_load(spec_contents_view(contents)),
{
    let s = match contents {
        Some(s) => s,
        None => return Err(ConfigError::Io),
    };
    let fields = match read_config_fields(s, "time", "log_level", "type") {
        Some(f) => f,
        None => return Err(ConfigError::Format),
    };
    match level_from_name(fields.1.as_str()) {
        Some(level) => Ok(Config { time: fields.0, log_level: level }),
        None => Err(ConfigError::Format),
    }
}

/// Resolves a configuration from the contents of the configuration file:
/// the loaded configuration, or the hardcoded fallback when loading fails.
/// On a failure, one Error-severity line describing it is written to the
/// error stream, formatted with the fallback configuration; that line is
/// also handed back, `Some` exactly on failure, composed as an emitted
/// Error line over the failure notice and ending with the error's
/// description. This call itself never fails.
pub fn resolve_config(contents: Option<&str>) -> (r: (Config, Option<String>))
    ensures
        r.0 == spec_resolve(spec_contents_view(contents)),
        r.1 is Some <==> spec_load(spec_contents_view(contents)) is Err,
        r.1 matches Some(line) ==> exists|en: Seq<char>, tn: Seq<char>|
            {
                &&& line@ == #[trigger] spec_compose(
                    spec_default_config().time,
                    en,
                    tn,
                    "Could not load config file, falling back to default. "@ + spec_description(
                        spec_load(spec_contents_view(contents))->Err_0,
                    ),
                )
                &&& tag_shaped(tn, LogLevel::Error)
            },
        r.1 matches Some(line) ==> ({
            let desc = spec_description(spec_load(spec_contents_view(contents))->Err_0);
            &&& line@.len() > desc.len()
            &&& line@.subrange(line@.len() - desc.len(), line@.len() as int) == desc
        }),
{
    match load_config(contents) {
        Ok(c) => (c, None),
        Err(e) => {
            let fallback = Config::default();
            let mut msg = String::from_str("Could not load config file, falling back to default. ");
            msg.append(e.description().as_str());
            let ghost m = msg@;
            let line = error_format(LogLevel::Error, msg, &fallback, 0).unwrap();
            write_error_line(line.as_str());
            proof {
                let desc = spec_description(spec_load(spec_contents_view(contents))->Err_0);
                assert(m == "Could not load config file, falling back to default. "@ + desc);
                let (en, tn) = choose|en: Seq<char>, tn: Seq<char>|
                    {
                        &&& line@ == #[trigger] spec_compose(fallback.time, en, tn, m)
                        &&& tag_shaped(tn, LogLevel::Error)
                        &&& embeds(en, dec_digits(0nat))
                    };
                assert(line@ == spec_compose(
                    spec_default_config().time,
                    en,
                    tn,
                    "Could not load config file, falling back to default. "@ + desc,
                ));
                reveal_strlit("Could not load config file, falling back to default. ");
                let x = (if spec_default_config().time {
                    seq!['['] + en + seq![']', ' ']
                } else {
                    Seq::<char>::empty()
                }) + tn;
                assert(line@ =~= (x + "Could not load config file, falling back to default. "@)
                    + desc);
                assert(line@.subrange(line@.len() - desc.len(), line@.len() as int) =~= desc);
            }
            (fallback, Some(line))
        },
    }
}

/// The fallback law: whenever loading fails — in particular when the
/// configuration file is missing — resolution yields exactly the hardcoded
/// fallback configuration.
pub proof fn lemma_fallback(contents: Option<Seq<char>>)
    ensures
        spec_load(contents) is Err ==> spec_resolve(contents) == spec_default_config(),
        contents is None ==> spec_resolve(contents) == spec_default_config(),
{
}

/// The process-wide configuration slot: resolves on first demand and caches
/// the result; later demands reuse it with no further work.
pub struct ConfigCell {
    value: Option<Config>,
}

impl ConfigCell {
    /// The configuration this cell has resolved, if it has.
    pub closed spec fn resolved(self) -> Option<Config> {
        self.value
    }

    /// An empty cell: nothing resolved yet.
    pub fn new() -> (c: ConfigCell)
        ensures
            c.resolved() is None,
    {
        ConfigCell { value: None }
    }

    /// The configuration, resolving it on first demand. An empty cell
    /// resolves from `contents` as [`resolve_config`] does, diagnostic line
    /// included, and keeps the result; a resolved cell hands its
    /// configuration back unchanged, ignores `contents`, and neither loads
    /// nor writes anything.
    pub fn get_or_init(&mut self, contents: Option<&str>) -> (r: (Config, Option<String>))
        ensures
            match old(self).resolved() {
                Some(c0) => r.0 == c0 && r.1 is None && final(self).resolved() == Some(c0),
                None => {
                    &&& r.0 == spec_resolve(spec_contents_view(contents))
                    &&& final(self).resolved() == Some(r.0)
                    &&& (r.1 is Some <==> spec_load(spec_contents_view(contents)) is Err)
                },
            },
    {
        match self.value {
            Some(c) => (c, None),
            None => {
                let (c, diag) = resolve_config(contents);
                self.value = Some(c);
                (c, diag)
            },
        }
    }
}

} // verus!
