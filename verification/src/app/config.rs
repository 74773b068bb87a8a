//! Application settings, resolved from the raw values of the environment.

use vstd::prelude::*;
use crate::text::{trim, is_blank, parse_u64, concat, trim_seq, parse_integer_seq};

verus! {

/// Default listen address.
pub const DEFAULT_BIND_ADDR: &'static str = "127.0.0.1:8866";

/// Default SQLite database URL.
pub const DEFAULT_DATABASE_URL: &'static str = "sqlite://data/fund-monitor.db";

/// Default number of seconds between two polling rounds.
pub const DEFAULT_POLL_INTERVAL_SECONDS: u64 = 300;

/// Default base URL of the Telegram Bot API.
pub const DEFAULT_TELEGRAM_API_BASE_URL: &'static str = "https://api.telegram.org";

/// Environment variable holding the listen address.
pub const BIND_ADDR_KEY: &'static str = "FUND_MONITOR_BIND_ADDR";

/// Environment variable holding the database URL.
pub const DATABASE_URL_KEY: &'static str = "FUND_MONITOR_DATABASE_URL";

/// Environment variable holding the polling interval.
pub const POLL_INTERVAL_KEY: &'static str = "FUND_MONITOR_POLL_INTERVAL_SECONDS";

/// Environment variable holding the Telegram Bot API base URL.
pub const TELEGRAM_API_BASE_URL_KEY: &'static str = "FUND_MONITOR_TELEGRAM_API_BASE_URL";

/// Environment variable holding the Telegram bot token.
pub const TELEGRAM_BOT_TOKEN_KEY: &'static str = "FUND_MONITOR_TELEGRAM_BOT_TOKEN";

/// Environment variable holding the Telegram chat id.
pub const TELEGRAM_CHAT_ID_KEY: &'static str = "FUND_MONITOR_TELEGRAM_CHAT_ID";

/// Runtime configuration of the service.
#[derive(Debug, Clone)]
pub struct AppConfig {
    pub bind_addr: String,
    pub database_url: String,
    pub poll_interval_seconds: u64,
    pub telegram_api_base_url: String,
    pub telegram_bot_token: Option<String>,
    pub telegram_chat_id: Option<String>,
}

/// Why the configuration could not be resolved.
#[derive(Debug, Clone)]
pub enum ConfigError {
    /// The variable is set but blank.
    Blank(String),
    /// The variable (first) is not an unsigned integer, for the reason `str::parse` gives
    /// (second).
    NotUnsigned(String, String),
    /// The variable (first) could not be read, for the reason the environment gives (second).
    Unreadable(String, String),
    /// The polling interval is zero.
    ZeroPollInterval,
}

/// The meaning of a `ConfigError`.
pub enum ConfigFault {
    Blank(Seq<char>),
    NotUnsigned(Seq<char>, Seq<char>),
    Unreadable(Seq<char>, Seq<char>),
    ZeroPollInterval,
}

impl View for ConfigError {
    type V = ConfigFault;

    open spec fn view(&self) -> ConfigFault {
        match self {
            ConfigError::Blank(k) => ConfigFault::Blank(k@),
            ConfigError::NotUnsigned(k, c) => ConfigFault::NotUnsigned(k@, c@),
            ConfigError::Unreadable(k, c) => ConfigFault::Unreadable(k@, c@),
            ConfigError::ZeroPollInterval => ConfigFault::ZeroPollInterval,
        }
    }
}

/// The underlying reason of a configuration fault, where it has one.
pub open spec fn config_fault_cause(f: ConfigFault) -> Option<Seq<char>> {
    match f {
        ConfigFault::NotUnsigned(_, c) => Some(c),
        ConfigFault::Unreadable(_, c) => Some(c),
        _ => None,
    }
}

/// The message of a configuration fault (its underlying reason is `config_fault_cause`).
pub open spec fn config_fault_message(f: ConfigFault) -> Seq<char> {
    match f {
        ConfigFault::Blank(k) => k + " 不能为空"@,
        ConfigFault::NotUnsigned(k, _) => k + " 必须是无符号整数"@,
        ConfigFault::Unreadable(k, _) => "读取环境变量 "@ + k + " 失败"@,
        ConfigFault::ZeroPollInterval => "FUND_MONITOR_POLL_INTERVAL_SECONDS 必须大于 0"@,
    }
}

impl ConfigError {
    /// The underlying reason, where the refusal has one: the parse or environment error.
    pub fn cause(&self) -> (res: Option<String>)
        ensures
            opt_view(res) == config_fault_cause(self@),
    {
        match self {
            ConfigError::NotUnsigned(_, c) => Some(c.clone()),
            ConfigError::Unreadable(_, c) => Some(c.clone()),
            _ => None,
        }
    }

    /// The message shown when the configuration is refused.
    pub fn message(&self) -> (res: String)
        ensures
            res@ == config_fault_message(self@),
    {
        match self {
            ConfigError::Blank(k) => concat(k.as_str(), " 不能为空"),
            ConfigError::NotUnsigned(k, _) => concat(k.as_str(), " 必须是无符号整数"),
            ConfigError::Unreadable(k, _) => crate::text::concat3("读取环境变量 ", k.as_str(), " 失败"),
            ConfigError::ZeroPollInterval => String::from_str(
                "FUND_MONITOR_POLL_INTERVAL_SECONDS 必须大于 0",
            ),
        }
    }
}

/// The view of an optional string.
pub open spec fn opt_view(o: Option<String>) -> Option<Seq<char>> {
    match o {
        Some(s) => Some(s@),
        None => None,
    }
}

/// What `str::parse::<u64>` says when it refuses a text (its `ParseIntError`'s `Display`).
pub uninterp spec fn u64_parse_error(text: Seq<char>) -> Seq<char>;

/// The text of the error `str::parse::<u64>` returns on `s`, which it refuses.
#[verifier::external_body]
fn u64_parse_error_text(s: &str) -> (res: String)
    requires
        parse_integer_seq(s@, 0, u64::MAX as int) is None,
    ensures
        res@ == u64_parse_error(s@),
{
    match s.parse::<u64>() {
        Err(e) => e.to_string(),
        Ok(_) => String::new(),
    }
}

/// A string setting: the default when unset, refused when blank, else trimmed.
pub open spec fn string_setting(key: Seq<char>, raw: Option<Seq<char>>, default: Seq<char>) -> Result<
    Seq<char>,
    ConfigFault,
> {
    match raw {
        None => Ok(default),
        Some(v) => if trim_seq(v).len() == 0 {
            Err(ConfigFault::Blank(key))
        } else {
            Ok(trim_seq(v))
        },
    }
}

/// An unsigned setting: the default when unset, refused when blank or not a `u64`.
pub open spec fn u64_setting(key: Seq<char>, raw: Option<Seq<char>>, default: u64) -> Result<
    u64,
    ConfigFault,
> {
    match raw {
        None => Ok(default),
        Some(v) => if trim_seq(v).len() == 0 {
            Err(ConfigFault::Blank(key))
        } else {
            match parse_integer_seq(trim_seq(v), 0, u64::MAX as int) {
                Some(n) => Ok(n as u64),
                None => Err(ConfigFault::NotUnsigned(key, u64_parse_error(trim_seq(v)))),
            }
        },
    }
}

/// An optional setting: absent when unset or blank, else trimmed.
pub open spec fn optional_setting(raw: Option<Seq<char>>) -> Option<Seq<char>> {
    match raw {
        None => None,
        Some(v) => if trim_seq(v).len() == 0 {
            None
        } else {
            Some(trim_seq(v))
        },
    }
}

/// Resolves a string setting from its raw value.
pub fn read_string(key: &str, raw: Option<String>, default: &str) -> (res: Result<String, ConfigError>)
    ensures
        match res {
            Ok(v) => string_setting(key@, opt_view(raw), default@) == Ok::<Seq<char>, ConfigFault>(v@),
            Err(e) => string_setting(key@, opt_view(raw), default@) == Err::<Seq<char>, ConfigFault>(e@),
        },
{
    match raw {
        Some(value) => {
            if is_blank(value.as_str()) {
                Err(ConfigError::Blank(String::from_str(key)))
            } else {
                Ok(trim(value.as_str()))
            }
        },
        None => Ok(String::from_str(default)),
    }
}

/// Resolves an unsigned setting from its raw value.
pub fn read_u64(key: &str, raw: Option<String>, default: u64) -> (res: Result<u64, ConfigError>)
    ensures
        match res {
            Ok(v) => u64_setting(key@, opt_view(raw), default) == Ok::<u64, ConfigFault>(v),
            Err(e) => u64_setting(key@, opt_view(raw), default) == Err::<u64, ConfigFault>(e@),
        },
{
    match raw {
        Some(value) => {
            let trimmed = trim(value.as_str());
            if is_blank(value.as_str()) {
                Err(ConfigError::Blank(String::from_str(key)))
            } else {
                match parse_u64(trimmed.as_str()) {
                    Some(n) => Ok(n),
                    None => Err(ConfigError::NotUnsigned(String::from_str(key), u64_parse_error_text(trimmed.as_str()))),
                }
            }
        },
        None => Ok(default),
    }
}

/// Resolves an optional setting from its raw value.
pub fn read_optional_string(raw: Option<String>) -> (res: Option<String>)
    ensures
        opt_view(res) == optional_setting(opt_view(raw)),
{
    match raw {
        Some(value) => {
            if is_blank(value.as_str()) {
                None
            } else {
                Some(trim(value.as_str()))
            }
        },
        None => None,
    }
}

/// The raw values of the environment variables the configuration reads (`None` where unset).
#[derive(Debug, Clone)]
pub struct RawSettings {
    pub bind_addr: Option<String>,
    pub database_url: Option<String>,
    pub poll_interval_seconds: Option<String>,
    pub telegram_api_base_url: Option<String>,
    pub telegram_bot_token: Option<String>,
    pub telegram_chat_id: Option<String>,
}

impl AppConfig {
    /// Resolves the configuration: each setting in turn, the first refusal wins, and a zero
    /// polling interval is refused.
    pub fn from_settings(raw: RawSettings) -> (res: Result<Self, ConfigError>)
        ensures
            match res {
                Ok(c) => {
                    &&& string_setting(BIND_ADDR_KEY@, opt_view(raw.bind_addr), DEFAULT_BIND_ADDR@)
                        == Ok::<Seq<char>, ConfigFault>(c.bind_addr@)
                    &&& string_setting(DATABASE_URL_KEY@, opt_view(raw.database_url), DEFAULT_DATABASE_URL@)
                        == Ok::<Seq<char>, ConfigFault>(c.database_url@)
                    &&& u64_setting(POLL_INTERVAL_KEY@, opt_view(raw.poll_interval_seconds), DEFAULT_POLL_INTERVAL_SECONDS)
                        == Ok::<u64, ConfigFault>(c.poll_interval_seconds)
                    &&& c.poll_interval_seconds > 0
                    &&& string_setting(TELEGRAM_API_BASE_URL_KEY@, opt_view(raw.telegram_api_base_url), DEFAULT_TELEGRAM_API_BASE_URL@)
                        == Ok::<Seq<char>, ConfigFault>(c.telegram_api_base_url@)
                    &&& opt_view(c.telegram_bot_token) == optional_setting(opt_view(raw.telegram_bot_token))
                    &&& opt_view(c.telegram_chat_id) == optional_setting(opt_view(raw.telegram_chat_id))
                },
                Err(e) => {
                    ||| string_setting(BIND_ADDR_KEY@, opt_view(raw.bind_addr), DEFAULT_BIND_ADDR@)
                        == Err::<Seq<char>, ConfigFault>(e@)
                    ||| (string_setting(BIND_ADDR_KEY@, opt_view(raw.bind_addr), DEFAULT_BIND_ADDR@) is Ok
                        && string_setting(DATABASE_URL_KEY@, opt_view(raw.database_url), DEFAULT_DATABASE_URL@)
                        == Err::<Seq<char>, ConfigFault>(e@))
                    ||| (string_setting(BIND_ADDR_KEY@, opt_view(raw.bind_addr), DEFAULT_BIND_ADDR@) is Ok
                        && string_setting(DATABASE_URL_KEY@, opt_view(raw.database_url), DEFAULT_DATABASE_URL@) is Ok
                        && u64_setting(POLL_INTERVAL_KEY@, opt_view(raw.poll_interval_seconds), DEFAULT_POLL_INTERVAL_SECONDS)
                        == Err::<u64, ConfigFault>(e@))
                    ||| (string_setting(BIND_ADDR_KEY@, opt_view(raw.bind_addr), DEFAULT_BIND_ADDR@) is Ok
                        && string_setting(DATABASE_URL_KEY@, opt_view(raw.database_url), DEFAULT_DATABASE_URL@) is Ok
                        && u64_setting(POLL_INTERVAL_KEY@, opt_view(raw.poll_interval_seconds), DEFAULT_POLL_INTERVAL_SECONDS)
                        == Ok::<u64, ConfigFault>(0)
                        && e@ == ConfigFault::ZeroPollInterval)
                    ||| (string_setting(BIND_ADDR_KEY@, opt_view(raw.bind_addr), DEFAULT_BIND_ADDR@) is Ok
                        && string_setting(DATABASE_URL_KEY@, opt_view(raw.database_url), DEFAULT_DATABASE_URL@) is Ok
                        && (u64_setting(POLL_INTERVAL_KEY@, opt_view(raw.poll_interval_seconds), DEFAULT_POLL_INTERVAL_SECONDS)
                            matches Ok(n) && n > 0)
                        && string_setting(TELEGRAM_API_BASE_URL_KEY@, opt_view(raw.telegram_api_base_url), DEFAULT_TELEGRAM_API_BASE_URL@)
                        == Err::<Seq<char>, ConfigFault>(e@))
                },
            },
    {
        let bind_addr = match read_string(BIND_ADDR_KEY, raw.bind_addr, DEFAULT_BIND_ADDR) {
            Ok(v) => v,
            Err(e) => return Err(e),
        };
        let database_url = match read_string(DATABASE_URL_KEY, raw.database_url, DEFAULT_DATABASE_URL) {
            Ok(v) => v,
            Err(e) => return Err(e),
        };
        let poll_interval_seconds = match read_u64(
            POLL_INTERVAL_KEY,
            raw.poll_interval_seconds,
            DEFAULT_POLL_INTERVAL_SECONDS,
        ) {
            Ok(v) => v,
            Err(e) => return Err(e),
        };
        if poll_interval_seconds == 0 {
            return Err(ConfigError::ZeroPollInterval);
        }
        let telegram_api_base_url = match read_string(
            TELEGRAM_API_BASE_URL_KEY,
            raw.telegram_api_base_url,
            DEFAULT_TELEGRAM_API_BASE_URL,
        ) {
            Ok(v) => v,
            Err(e) => return Err(e),
        };
        Ok(AppConfig {
            bind_addr,
            database_url,
            poll_interval_seconds,
            telegram_api_base_url,
            telegram_bot_token: read_optional_string(raw.telegram_bot_token),
            telegram_chat_id: read_optional_string(raw.telegram_chat_id),
        })
    }
}

} // verus!
