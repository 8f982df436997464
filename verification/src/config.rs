//! Service settings: defaults, builders, and the reading of a parsed
//! settings document.

use vstd::prelude::*;

verus! {

/// One million: error rates are held in millionths, so this stands for a
/// rate of one (every request fails).
pub const RATE_SCALE: i64 = 1_000_000;

/// Settings for fault injection, as they were configured and before they are
/// checked.
#[derive(Clone, Copy, Debug, PartialEq, Eq, Structural)]
pub struct FaultInjectConfig {
    /// Share of requests to fail, in millionths.
    pub error_rate: i64,
    /// Least added delay, in microseconds.
    pub min_delay: u64,
    /// Greatest added delay, in microseconds.
    pub max_delay: u64,
    /// Time allowed to a request, in seconds.
    pub timeout: Option<u64>,
    /// Status code of an injected failure.
    pub status_on_error: u16,
}

impl FaultInjectConfig {
    /// The settings used where none are configured: one request in ten
    /// fails, 50 to 100 microseconds of delay, two seconds of timeout,
    /// status 500.
    pub open spec fn default_spec() -> FaultInjectConfig {
        FaultInjectConfig {
            error_rate: 100_000,
            min_delay: 50,
            max_delay: 100,
            timeout: Some(2u64),
            status_on_error: 500,
        }
    }

    pub fn with_error_rate(self, p: i64) -> (r: Self)
        ensures
            r == (FaultInjectConfig { error_rate: p, ..self }),
    {
        let mut c = self;
        c.error_rate = p;
        c
    }

    pub fn with_min_delay(self, min: u64) -> (r: Self)
        ensures
            r == (FaultInjectConfig { min_delay: min, ..self }),
    {
        let mut c = self;
        c.min_delay = min;
        c
    }

    pub fn with_max_delay(self, max: u64) -> (r: Self)
        ensures
            r == (FaultInjectConfig { max_delay: max, ..self }),
    {
        let mut c = self;
        c.max_delay = max;
        c
    }

    pub fn with_timeout(self, dur: u64) -> (r: Self)
        ensures
            r == (FaultInjectConfig { timeout: Some(dur), ..self }),
    {
        let mut c = self;
        c.timeout = Some(dur);
        c
    }

    pub fn with_status_on_error(self, status: u16) -> (r: Self)
        ensures
            r == (FaultInjectConfig { status_on_error: status, ..self }),
    {
        let mut c = self;
        c.status_on_error = status;
        c
    }
}

impl Default for FaultInjectConfig {
    fn default() -> (r: Self)
        ensures
            r == FaultInjectConfig::default_spec(),
    {
        FaultInjectConfig {
            error_rate: 100_000,
            min_delay: 50,
            max_delay: 100,
            timeout: Some(2),
            status_on_error: 500,
        }
    }
}

/// Settings of the service.
#[derive(Clone, Debug)]
pub struct Config {
    pub port: u16,
    pub prefix: String,
    pub addr: String,
    pub log_output: String,
    pub fault_inject: FaultInjectConfig,
}

/// What a `Config` holds, with each text as a sequence of characters.
pub struct ConfigView {
    pub port: u16,
    pub prefix: Seq<char>,
    pub addr: Seq<char>,
    pub log_output: Seq<char>,
    pub fault_inject: FaultInjectConfig,
}

impl View for Config {
    type V = ConfigView;

    open spec fn view(&self) -> ConfigView {
        ConfigView {
            port: self.port,
            prefix: self.prefix@,
            addr: self.addr@,
            log_output: self.log_output@,
            fault_inject: self.fault_inject,
        }
    }
}

impl ConfigView {
    /// The settings of a service that was given none: port 8080 on every
    /// address, routes under `/api/v1`, logs to the console.
    pub open spec fn default_spec() -> ConfigView {
        ConfigView {
            port: 8080,
            prefix: "/api/v1"@,
            addr: "0.0.0.0"@,
            log_output: "console"@,
            fault_inject: FaultInjectConfig::default_spec(),
        }
    }
}

impl Config {
    pub fn new() -> (r: Self)
        ensures
            r@ == ConfigView::default_spec(),
    {
        Config::default()
    }

    pub fn with_port(self, port: u16) -> (r: Self)
        ensures
            r@ == (ConfigView { port, ..self@ }),
    {
        let mut c = self;
        c.port = port;
        c
    }

    pub fn with_addr(self, addr: &str) -> (r: Self)
        ensures
            r@ == (ConfigView { addr: addr@, ..self@ }),
    {
        let mut c = self;
        c.addr = addr.to_owned();
        c
    }

    pub fn with_log_output(self, output: &str) -> (r: Self)
        ensures
            r@ == (ConfigView { log_output: output@, ..self@ }),
    {
        let mut c = self;
        c.log_output = output.to_owned();
        c
    }

    pub fn with_prefix(self, prefix: &str) -> (r: Self)
        ensures
            r@ == (ConfigView { prefix: prefix@, ..self@ }),
    {
        let mut c = self;
        c.prefix = prefix.to_owned();
        c
    }

    pub fn with_fault_inject(self, fi: FaultInjectConfig) -> (r: Self)
        ensures
            r@ == (ConfigView { fault_inject: fi, ..self@ }),
    {
        let mut c = self;
        c.fault_inject = fi;
        c
    }
}

impl Default for Config {
    fn default() -> (r: Self)
        ensures
            r@ == ConfigView::default_spec(),
    {
        Config {
            port: 8080,
            prefix: "/api/v1".to_owned(),
            addr: "0.0.0.0".to_owned(),
            log_output: "console".to_owned(),
            fault_inject: FaultInjectConfig::default(),
        }
    }
}

/// A number of a settings document.
#[derive(Clone, Copy, Debug, PartialEq, Eq, Structural)]
pub struct ConfigNumber {
    /// The number itself, where it is a whole number from 0 to 2^64 - 1.
    pub unsigned: Option<u64>,
    /// The number in millionths: how a rate is held.
    pub millionths: i64,
}

/// A value inside a section of a settings document. Only numbers are read
/// there.
#[derive(Clone, Copy, Debug, PartialEq, Eq, Structural)]
pub enum FieldValue {
    Number(ConfigNumber),
    Other,
}

/// One line of a section: a key, where the key is a text, and its value.
#[derive(Clone, Debug)]
pub struct ConfigField {
    pub key: Option<String>,
    pub value: FieldValue,
}

/// A top-level value of a settings document.
#[derive(Clone, Debug)]
pub enum ConfigValue {
    Text(String),
    Number(ConfigNumber),
    Section(Vec<ConfigField>),
    Other,
}

/// One top-level line of a settings document: a key, where the key is a
/// text, and its value.
#[derive(Clone, Debug)]
pub struct ConfigEntry {
    pub key: Option<String>,
    pub value: ConfigValue,
}

/// Why a settings document could not be read.
#[derive(Clone, Copy, Debug, PartialEq, Eq, Structural)]
pub enum ConfigError {
    /// A setting that is a count or a code holds a number that is negative
    /// or has a fraction.
    NotUnsigned,
}

/// The low sixteen bits of a number: what a port or a status code keeps of
/// the number written for it.
pub open spec fn low_u16(n: u64) -> u16 {
    (n % 0x1_0000) as u16
}

fn low_bits(n: u64) -> (r: u16)
    ensures
        r == low_u16(n),
{
    (n % 0x1_0000) as u16
}

/// Whether a key is the given name.
pub open spec fn key_is(key: Option<String>, name: Seq<char>) -> bool {
    key matches Some(k) && k@ == name
}

fn key_matches(key: &Option<String>, name: &str) -> (r: bool)
    ensures
        r == key_is(*key, name@),
{
    match key {
        Some(k) => *k == name.to_owned(),
        None => false,
    }
}

/// The fault-injection settings after one line of their section. A line
/// counts when its value is a number and its key names a setting; any other
/// line changes nothing. The rate takes the number in millionths; the other
/// settings need a whole number, and the status code keeps its low sixteen
/// bits.
pub open spec fn field_applied(fi: FaultInjectConfig, field: ConfigField) -> Result<
    FaultInjectConfig,
    ConfigError,
> {
    match field.value {
        FieldValue::Number(n) => {
            if key_is(field.key, "error_rate"@) {
                Ok(FaultInjectConfig { error_rate: n.millionths, ..fi })
            } else if key_is(field.key, "min_delay"@) {
                match n.unsigned {
                    Some(u) => Ok(FaultInjectConfig { min_delay: u, ..fi }),
                    None => Err(ConfigError::NotUnsigned),
                }
            } else if key_is(field.key, "max_delay"@) {
                match n.unsigned {
                    Some(u) => Ok(FaultInjectConfig { max_delay: u, ..fi }),
                    None => Err(ConfigError::NotUnsigned),
                }
            } else if key_is(field.key, "timeout"@) {
                match n.unsigned {
                    Some(u) => Ok(FaultInjectConfig { timeout: Some(u), ..fi }),
                    None => Err(ConfigError::NotUnsigned),
                }
            } else if key_is(field.key, "status_on_error"@) {
                match n.unsigned {
                    Some(u) => Ok(FaultInjectConfig { status_on_error: low_u16(u), ..fi }),
                    None => Err(ConfigError::NotUnsigned),
                }
            } else {
                Ok(fi)
            }
        },
        FieldValue::Other => Ok(fi),
    }
}

/// The fault-injection settings after the lines of a section, taken in
/// order from `fi`. The first line that cannot be read ends the reading.
pub open spec fn fields_applied(fi: FaultInjectConfig, fields: Seq<ConfigField>) -> Result<
    FaultInjectConfig,
    ConfigError,
>
    decreases fields.len(),
{
    if fields.len() == 0 {
        Ok(fi)
    } else {
        match fields_applied(fi, fields.drop_last()) {
            Ok(before) => field_applied(before, fields.last()),
            Err(e) => Err(e),
        }
    }
}

/// The fault-injection settings that a value stands for: the defaults,
/// changed by the lines of the value where it is a section.
pub open spec fn fault_inject_of(value: ConfigValue) -> Result<FaultInjectConfig, ConfigError> {
    match value {
        ConfigValue::Section(fields) => fields_applied(FaultInjectConfig::default_spec(), fields@),
        _ => Ok(FaultInjectConfig::default_spec()),
    }
}

/// The settings after one top-level line. A text sets `addr`, `prefix` or
/// `log`; a number sets `port`, which keeps its low sixteen bits; a section
/// under `fault_inject` replaces the fault-injection settings. Any other
/// line changes nothing.
pub open spec fn entry_applied(config: ConfigView, entry: ConfigEntry) -> Result<
    ConfigView,
    ConfigError,
> {
    match entry.value {
        ConfigValue::Text(text) => {
            if key_is(entry.key, "addr"@) {
                Ok(ConfigView { addr: text@, ..config })
            } else if key_is(entry.key, "prefix"@) {
                Ok(ConfigView { prefix: text@, ..config })
            } else if key_is(entry.key, "log"@) {
                Ok(ConfigView { log_output: text@, ..config })
            } else {
                Ok(config)
            }
        },
        ConfigValue::Number(n) => {
            if key_is(entry.key, "port"@) {
                match n.unsigned {
                    Some(u) => Ok(ConfigView { port: low_u16(u), ..config }),
                    None => Err(ConfigError::NotUnsigned),
                }
            } else {
                Ok(config)
            }
        },
        ConfigValue::Section(fields) => {
            if key_is(entry.key, "fault_inject"@) {
                match fault_inject_of(entry.value) {
                    Ok(fi) => Ok(ConfigView { fault_inject: fi, ..config }),
                    Err(e) => Err(e),
                }
            } else {
                Ok(config)
            }
        },
        ConfigValue::Other => Ok(config),
    }
}

/// The settings after the top-level lines of a document, taken in order
/// from `config`. The first line that cannot be read ends the reading.
pub open spec fn entries_applied(config: ConfigView, entries: Seq<ConfigEntry>) -> Result<
    ConfigView,
    ConfigError,
>
    decreases entries.len(),
{
    if entries.len() == 0 {
        Ok(config)
    } else {
        match entries_applied(config, entries.drop_last()) {
            Ok(before) => entry_applied(before, entries.last()),
            Err(e) => Err(e),
        }
    }
}

/// The view of a result: the settings' view, or the error.
pub open spec fn loaded_view(r: Result<Config, ConfigError>) -> Result<ConfigView, ConfigError> {
    match r {
        Ok(config) => Ok(config@),
        Err(e) => Err(e),
    }
}

fn apply_field(fi: FaultInjectConfig, field: &ConfigField) -> (r: Result<
    FaultInjectConfig,
    ConfigError,
>)
    ensures
        r == field_applied(fi, *field),
{
    match field.value {
        FieldValue::Number(n) => {
            if key_matches(&field.key, "error_rate") {
                Ok(fi.with_error_rate(n.millionths))
            } else if key_matches(&field.key, "min_delay") {
                match n.unsigned {
                    Some(u) => Ok(fi.with_min_delay(u)),
                    None => Err(ConfigError::NotUnsigned),
                }
            } else if key_matches(&field.key, "max_delay") {
                match n.unsigned {
                    Some(u) => Ok(fi.with_max_delay(u)),
                    None => Err(ConfigError::NotUnsigned),
                }
            } else if key_matches(&field.key, "timeout") {
                match n.unsigned {
                    Some(u) => Ok(fi.with_timeout(u)),
                    None => Err(ConfigError::NotUnsigned),
                }
            } else if key_matches(&field.key, "status_on_error") {
                match n.unsigned {
                    Some(u) => Ok(fi.with_status_on_error(low_bits(u))),
                    None => Err(ConfigError::NotUnsigned),
                }
            } else {
                Ok(fi)
            }
        },
        FieldValue::Other => Ok(fi),
    }
}

fn apply_fields(fields: &Vec<ConfigField>) -> (r: Result<FaultInjectConfig, ConfigError>)
    ensures
        r == fields_applied(FaultInjectConfig::default_spec(), fields@),
{
    let mut fi = FaultInjectConfig::default();
    let mut i: usize = 0;
    while i < fields.len()
        invariant
            i <= fields.len(),
            fields_applied(FaultInjectConfig::default_spec(), fields@.take(i as int)) == Ok::<
                FaultInjectConfig,
                ConfigError,
            >(fi),
        decreases fields.len() - i,
    {
        proof {
            assert(fields@.take(i + 1).drop_last() == fields@.take(i as int));
            assert(fields@.take(i + 1).last() == fields@[i as int]);
        }
        match apply_field(fi, &fields[i]) {
            Ok(next) => {
                fi = next;
            },
            Err(e) => {
                proof {
                    lemma_fields_error_stays(FaultInjectConfig::default_spec(), fields@, i + 1);
                }
                return Err(e);
            },
        }
        i = i + 1;
    }
    proof {
        assert(fields@.take(i as int) == fields@);
    }
    Ok(fi)
}

/// Reads the fault-injection settings out of a value of a settings
/// document: the defaults, changed line by line where the value is a
/// section, and the defaults as they are where it is anything else.
///
/// The result is an error exactly when a line that sets a delay, the
/// timeout or the status code holds a number that is not a whole number
/// from 0 on.
pub fn get_file_inject_config(v: &ConfigValue) -> (r: Result<FaultInjectConfig, ConfigError>)
    ensures
        r == fault_inject_of(*v),
{
    match v {
        ConfigValue::Section(fields) => apply_fields(fields),
        _ => Ok(FaultInjectConfig::default()),
    }
}

/// Once a line of a section cannot be read, later lines do not change the
/// error.
proof fn lemma_fields_error_stays(fi: FaultInjectConfig, fields: Seq<ConfigField>, n: int)
    requires
        0 <= n <= fields.len(),
        fields_applied(fi, fields.take(n)) is Err,
    ensures
        fields_applied(fi, fields) == fields_applied(fi, fields.take(n)),
    decreases fields.len() - n,
{
    if n == fields.len() {
        assert(fields.take(n) == fields);
    } else {
        assert(fields.drop_last().take(n) == fields.take(n));
        lemma_fields_error_stays(fi, fields.drop_last(), n);
    }
}

/// Once a top-level line cannot be read, later lines do not change the
/// error.
proof fn lemma_entries_error_stays(config: ConfigView, entries: Seq<ConfigEntry>, n: int)
    requires
        0 <= n <= entries.len(),
        entries_applied(config, entries.take(n)) is Err,
    ensures
        entries_applied(config, entries) == entries_applied(config, entries.take(n)),
    decreases entries.len() - n,
{
    if n == entries.len() {
        assert(entries.take(n) == entries);
    } else {
        assert(entries.drop_last().take(n) == entries.take(n));
        lemma_entries_error_stays(config, entries.drop_last(), n);
    }
}

fn apply_entry(config: Config, entry: &ConfigEntry) -> (r: Result<Config, ConfigError>)
    ensures
        loaded_view(r) == entry_applied(config@, *entry),
{
    match &entry.value {
        ConfigValue::Text(text) => {
            if key_matches(&entry.key, "addr") {
                Ok(config.with_addr(text.as_str()))
            } else if key_matches(&entry.key, "prefix") {
                Ok(config.with_prefix(text.as_str()))
            } else if key_matches(&entry.key, "log") {
                Ok(config.with_log_output(text.as_str()))
            } else {
                Ok(config)
            }
        },
        ConfigValue::Number(n) => {
            if key_matches(&entry.key, "port") {
                match n.unsigned {
                    Some(u) => Ok(config.with_port(low_bits(u))),
                    None => Err(ConfigError::NotUnsigned),
                }
            } else {
                Ok(config)
            }
        },
        ConfigValue::Section(_) => {
            if key_matches(&entry.key, "fault_inject") {
                match get_file_inject_config(&entry.value) {
                    Ok(fi) => Ok(config.with_fault_inject(fi)),
                    Err(e) => Err(e),
                }
            } else {
                Ok(config)
            }
        },
        ConfigValue::Other => Ok(config),
    }
}

/// Reads the settings out of the top-level lines of a settings document:
/// the defaults, changed line by line in the order of the document.
///
/// The result is an error exactly when a line that sets a count or a code
/// holds a number that is not a whole number from 0 on.
pub fn load_entries(entries: &Vec<ConfigEntry>) -> (r: Result<Config, ConfigError>)
    ensures
        loaded_view(r) == entries_applied(ConfigView::default_spec(), entries@),
{
    let mut config = Config::default();
    let mut i: usize = 0;
    while i < entries.len()
        invariant
            i <= entries.len(),
            entries_applied(ConfigView::default_spec(), entries@.take(i as int)) == Ok::<
                ConfigView,
                ConfigError,
            >(config@),
        decreases entries.len() - i,
    {
        proof {
            assert(entries@.take(i + 1).drop_last() == entries@.take(i as int));
            assert(entries@.take(i + 1).last() == entries@[i as int]);
        }
        match apply_entry(config, &entries[i]) {
            Ok(next) => {
                config = next;
            },
            Err(e) => {
                proof {
                    lemma_entries_error_stays(ConfigView::default_spec(), entries@, i + 1);
                }
                return Err(e);
            },
        }
        i = i + 1;
    }
    proof {
        assert(entries@.take(i as int) == entries@);
    }
    Ok(config)
}

} // verus!
