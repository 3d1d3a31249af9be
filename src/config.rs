//! The settings the state machine reads: where each mode's side-effect script
//! lies, and which caffeination program to run.
use vstd::prelude::*;
use vstd::string::*;

verus! {

/// The temporary directory that holds the side-effect scripts; removing it
/// deletes them.
#[verifier::external_type_specification]
#[verifier::external_body]
pub struct ExTempDir(tempfile::TempDir);

/// Read-only settings, handed to the state machine at construction.
pub struct Config {
    temp_dir: Option<tempfile::TempDir>,
    desktop_applescript_path: String,
    laptop_applescript_path: String,
    caffeinate_app: Option<String>,
    caffeinate_options: Option<String>,
}

/// The model of a `Config`.
pub struct ConfigView {
    pub holds_scripts: bool,
    pub desktop_applescript_path: Seq<char>,
    pub laptop_applescript_path: Seq<char>,
    pub caffeinate_app: Option<Seq<char>>,
    pub caffeinate_options: Option<Seq<char>>,
}

/// The text of an optional string.
pub open spec fn opt_text(s: Option<String>) -> Option<Seq<char>> {
    match s {
        Some(s) => Some(s@),
        None => None,
    }
}

impl View for Config {
    type V = ConfigView;

    closed spec fn view(&self) -> ConfigView {
        ConfigView {
            holds_scripts: self.temp_dir is Some,
            desktop_applescript_path: self.desktop_applescript_path@,
            laptop_applescript_path: self.laptop_applescript_path@,
            caffeinate_app: opt_text(self.caffeinate_app),
            caffeinate_options: opt_text(self.caffeinate_options),
        }
    }
}

fn as_opt_str(s: &Option<String>) -> (r: Option<&str>)
    ensures
        match r {
            Some(t) => opt_text(*s) == Some(t@),
            None => s is None,
        },
{
    match s {
        Some(t) => Some(t.as_str()),
        None => None,
    }
}

impl Config {
    /// Settings from their parts. `temp_dir`, where given, is the directory
    /// that holds both scripts; it is removed by `delete_apple_scripts`.
    pub fn new(
        temp_dir: Option<tempfile::TempDir>,
        desktop_applescript_path: String,
        laptop_applescript_path: String,
        caffeinate_app: Option<String>,
        caffeinate_options: Option<String>,
    ) -> (r: Self)
        ensures
            r@.holds_scripts == temp_dir is Some,
            r@.desktop_applescript_path == desktop_applescript_path@,
            r@.laptop_applescript_path == laptop_applescript_path@,
            r@.caffeinate_app == opt_text(caffeinate_app),
            r@.caffeinate_options == opt_text(caffeinate_options),
    {
        Config {
            temp_dir,
            desktop_applescript_path,
            laptop_applescript_path,
            caffeinate_app,
            caffeinate_options,
        }
    }

    /// Lets go of the temporary directory, which deletes the scripts; the
    /// paths and the caffeination settings stay.
    pub fn delete_apple_scripts(&mut self)
        ensures
            final(self)@ == (ConfigView { holds_scripts: false, ..old(self)@ }),
    {
        let _ = self.temp_dir.take();
    }

    /// Where the script for Desktop mode lies.
    pub fn desktop_applescript_path(&self) -> (r: &String)
        ensures
            r@ == self@.desktop_applescript_path,
    {
        &self.desktop_applescript_path
    }

    /// Where the script for Laptop mode lies.
    pub fn laptop_applescript_path(&self) -> (r: &String)
        ensures
            r@ == self@.laptop_applescript_path,
    {
        &self.laptop_applescript_path
    }

    /// The caffeination program, where one is configured.
    pub fn caffeinate_app(&self) -> (r: Option<&str>)
        ensures
            match r {
                Some(t) => self@.caffeinate_app == Some(t@),
                None => self@.caffeinate_app is None,
            },
    {
        as_opt_str(&self.caffeinate_app)
    }

    /// The single argument to the caffeination program, where one is configured.
    pub fn caffeinate_options(&self) -> (r: Option<&str>)
        ensures
            match r {
                Some(t) => self@.caffeinate_options == Some(t@),
                None => self@.caffeinate_options is None,
            },
    {
        as_opt_str(&self.caffeinate_options)
    }
}

/// A TOML table.
#[verifier::external_type_specification]
#[verifier::external_body]
#[verifier::reject_recursive_types(K)]
#[verifier::reject_recursive_types(V)]
pub struct ExTomlMap<K, V>(toml::map::Map<K, V>);

/// A TOML value.
#[verifier::external_type_specification]
#[verifier::external_body]
pub struct ExTomlValue(toml::Value);

/// What a TOML table holds at its top level: for each key, the text of its
/// value where that value is a string, and `None` where it is of another kind.
pub uninterp spec fn table_entries(t: toml::Table) -> Map<Seq<char>, Option<Seq<char>>>;

/// What the TOML document `text` holds at its top level, as `table_entries`
/// gives it, or `None` where `text` is not a TOML document.
pub uninterp spec fn toml_entries(text: Seq<char>) -> Option<Map<Seq<char>, Option<Seq<char>>>>;

/// Relies on `toml::Table`'s `FromStr`: parses `text` as a TOML document, or
/// says why it is none.
#[verifier::external_body]
fn parse_table(text: &str) -> (r: Result<toml::Table, String>)
    ensures
        r is Ok <==> toml_entries(text@) is Some,
        r is Ok ==> toml_entries(text@) == Some(table_entries(r->Ok_0)),
{
    text.parse::<toml::Table>().map_err(|e| e.to_string())
}

/// Relies on `toml::map::Map::get`: the value under `key`, with its text
/// where it is a string.
#[verifier::external_body]
fn table_text(t: &toml::Table, key: &str) -> (r: Option<Option<String>>)
    ensures
        r is Some <==> table_entries(*t).contains_key(key@),
        r is Some ==> opt_text(r->Some_0) == table_entries(*t)[key@],
{
    match t.get(key) {
        Some(toml::Value::String(s)) => Some(Some(s.clone())),
        Some(_) => Some(None),
        None => None,
    }
}

/// The settings as the configuration file states them: the text of each
/// mode's script, and the caffeination program and its argument.
pub struct Settings {
    pub desktop_applescript: String,
    pub laptop_applescript: String,
    pub caffeinate_app: Option<String>,
    pub caffeinate_options: Option<String>,
}

/// Why a configuration file could not be read into settings.
pub enum ConfigError {
    /// The file is not a TOML document; the parser's message says why.
    Parse(String),
    /// A required key is absent.
    Missing(String),
    /// A required key holds something other than a string.
    Malformed(String),
}

/// The message of a configuration error.
pub open spec fn config_error_text(e: ConfigError) -> Seq<char> {
    match e {
        ConfigError::Parse(m) => m@,
        ConfigError::Missing(k) => "`"@ + k@ + "` is missing from config.toml. Please add, or revert to defaults."@,
        ConfigError::Malformed(k) => "`"@ + k@
            + "` is malformed in config.toml. Please ensure it is valid AppleScript as a TOML string (see https://quickref.me/toml)."@,
    }
}

impl ConfigError {
    /// The error's message.
    pub fn to_string(&self) -> (r: String)
        ensures
            r@ == config_error_text(*self),
    {
        match self {
            ConfigError::Parse(m) => m.clone(),
            ConfigError::Missing(k) => {
                let mut s = String::from_str("`");
                s.append(k.as_str());
                s.append("` is missing from config.toml. Please add, or revert to defaults.");
                s
            },
            ConfigError::Malformed(k) => {
                let mut s = String::from_str("`");
                s.append(k.as_str());
                s.append(
                    "` is malformed in config.toml. Please ensure it is valid AppleScript as a TOML string (see https://quickref.me/toml).",
                );
                s
            },
        }
    }
}

/// The key of the Desktop mode script.
pub open spec fn desktop_key() -> Seq<char> {
    "desktop_applescript"@
}

/// The key of the Laptop mode script.
pub open spec fn laptop_key() -> Seq<char> {
    "laptop_applescript"@
}

/// Whether `r` is what reading the required key `key` from entries `m` gives:
/// its text, or the error that names the key.
pub open spec fn required_read(
    m: Map<Seq<char>, Option<Seq<char>>>,
    key: Seq<char>,
    r: Result<String, ConfigError>,
) -> bool {
    if !m.contains_key(key) {
        r is Err && r->Err_0 is Missing && r->Err_0->Missing_0@ == key
    } else {
        match m[key] {
            None => r is Err && r->Err_0 is Malformed && r->Err_0->Malformed_0@ == key,
            Some(v) => r is Ok && r->Ok_0@ == v,
        }
    }
}

/// The text under an optional key: `None` where the key is absent or does not
/// hold a string.
pub open spec fn optional_text(m: Map<Seq<char>, Option<Seq<char>>>, key: Seq<char>) -> Option<
    Seq<char>,
> {
    if m.contains_key(key) {
        m[key]
    } else {
        None
    }
}

/// Whether `r` is what reading settings from entries `m` gives: the Desktop
/// script is read first, then the Laptop script; the caffeination keys are
/// optional.
pub open spec fn settings_read(m: Map<Seq<char>, Option<Seq<char>>>, r: Result<Settings, ConfigError>) -> bool {
    if !(m.contains_key(desktop_key()) && m[desktop_key()] is Some) {
        r is Err && required_read(m, desktop_key(), Err(r->Err_0))
    } else if !(m.contains_key(laptop_key()) && m[laptop_key()] is Some) {
        r is Err && required_read(m, laptop_key(), Err(r->Err_0))
    } else {
        &&& r is Ok
        &&& r->Ok_0.desktop_applescript@ == m[desktop_key()]->Some_0
        &&& r->Ok_0.laptop_applescript@ == m[laptop_key()]->Some_0
        &&& opt_text(r->Ok_0.caffeinate_app) == optional_text(m, "caffeinate_app"@)
        &&& opt_text(r->Ok_0.caffeinate_options) == optional_text(m, "caffeinate_options"@)
    }
}

fn read_required(t: &toml::Table, key: &str) -> (r: Result<String, ConfigError>)
    ensures
        required_read(table_entries(*t), key@, r),
{
    match table_text(t, key) {
        None => Err(ConfigError::Missing(String::from_str(key))),
        Some(None) => Err(ConfigError::Malformed(String::from_str(key))),
        Some(Some(v)) => Ok(v),
    }
}

fn read_optional(t: &toml::Table, key: &str) -> (r: Option<String>)
    ensures
        opt_text(r) == optional_text(table_entries(*t), key@),
{
    match table_text(t, key) {
        None => None,
        Some(v) => v,
    }
}

impl Settings {
    /// Reads the settings from a parsed configuration table.
    pub fn from_table(t: &toml::Table) -> (r: Result<Settings, ConfigError>)
        ensures
            settings_read(table_entries(*t), r),
    {
        let desktop_applescript = match read_required(t, "desktop_applescript") {
            Ok(v) => v,
            Err(e) => return Err(e),
        };
        let laptop_applescript = match read_required(t, "laptop_applescript") {
            Ok(v) => v,
            Err(e) => return Err(e),
        };
        let caffeinate_app = read_optional(t, "caffeinate_app");
        let caffeinate_options = read_optional(t, "caffeinate_options");
        Ok(Settings { desktop_applescript, laptop_applescript, caffeinate_app, caffeinate_options })
    }

    /// Reads the settings from the text of a configuration file.
    pub fn parse(text: &str) -> (r: Result<Settings, ConfigError>)
        ensures
            match toml_entries(text@) {
                None => r is Err && r->Err_0 is Parse,
                Some(m) => settings_read(m, r),
            },
    {
        match parse_table(text) {
            Err(e) => Err(ConfigError::Parse(e)),
            Ok(t) => Settings::from_table(&t),
        }
    }
}

} // verus!
