//! Reading settings from environment values that were looked up already:
//! required ones, ones with a default, and numbers.

use vstd::prelude::*;

use crate::text::{
    is_blank, parse_i64, parse_i64_spec, parse_unsigned, parse_unsigned_spec, str_is_blank,
};

verus! {

/// What went wrong with a setting, as a value.
pub enum ConfigFault {
    Missing(Seq<char>),
    Blank(Seq<char>),
    Invalid(Seq<char>, Seq<char>),
    NoUserAgent(Seq<char>),
}

/// Why the environment does not give a configuration.
#[derive(Debug, Clone)]
pub enum ConfigError {
    /// The variable is not set (or not Unicode).
    Missing { key: String },
    /// The variable is set to white space only.
    Blank { key: String },
    /// The variable does not parse as the number it should be.
    Invalid { key: String, value: String },
    /// The user agent pool holds no usable entry.
    NoUserAgent { key: String },
}

impl View for ConfigError {
    type V = ConfigFault;

    open spec fn view(&self) -> ConfigFault {
        match self {
            ConfigError::Missing { key } => ConfigFault::Missing(key@),
            ConfigError::Blank { key } => ConfigFault::Blank(key@),
            ConfigError::Invalid { key, value } => ConfigFault::Invalid(key@, value@),
            ConfigError::NoUserAgent { key } => ConfigFault::NoUserAgent(key@),
        }
    }
}

/// The view of a looked-up value.
pub open spec fn value_view(value: Option<&str>) -> Option<Seq<char>> {
    match value {
        Some(v) => Some(v@),
        None => None,
    }
}

/// A required setting: present and not blank.
pub open spec fn required_spec(key: Seq<char>, value: Option<Seq<char>>) -> Result<
    Seq<char>,
    ConfigFault,
> {
    match value {
        None => Err(ConfigFault::Missing(key)),
        Some(v) => if is_blank(v) {
            Err(ConfigFault::Blank(key))
        } else {
            Ok(v)
        },
    }
}

/// The value of a required setting.
pub fn required_env(key: &str, value: Option<&str>) -> (r: Result<String, ConfigError>)
    ensures
        match required_spec(key@, value_view(value)) {
            Ok(v) => r is Ok && r->Ok_0@ == v,
            Err(e) => r is Err && r->Err_0@ == e,
        },
{
    match value {
        None => Err(ConfigError::Missing { key: key.to_string() }),
        Some(v) => {
            if str_is_blank(v) {
                Err(ConfigError::Blank { key: key.to_string() })
            } else {
                Ok(v.to_string())
            }
        },
    }
}

/// A setting with a default, taken when the value is missing or blank.
pub fn env_or(value: Option<&str>, default: &str) -> (r: String)
    ensures
        match value {
            Some(v) => r@ == if is_blank(v@) {
                default@
            } else {
                v@
            },
            None => r@ == default@,
        },
{
    match value {
        Some(v) => {
            if str_is_blank(v) {
                default.to_string()
            } else {
                v.to_string()
            }
        },
        None => default.to_string(),
    }
}

/// A number type a setting can hold, read as `str::parse` reads it.
pub trait EnvNumber: Sized + Copy {
    /// What `str::parse` gives for the text.
    spec fn parse_spec(s: Seq<char>) -> Option<Self>;

    /// `s.parse().ok()`.
    fn parse_text(s: &str) -> (r: Option<Self>)
        ensures
            r == Self::parse_spec(s@),
    ;
}

impl EnvNumber for u64 {
    open spec fn parse_spec(s: Seq<char>) -> Option<u64> {
        match parse_unsigned_spec(s, u64::MAX as nat) {
            Some(n) => Some(n as u64),
            None => None,
        }
    }

    fn parse_text(s: &str) -> (r: Option<u64>) {
        parse_unsigned(s, u64::MAX)
    }
}

impl EnvNumber for u32 {
    open spec fn parse_spec(s: Seq<char>) -> Option<u32> {
        match parse_unsigned_spec(s, u32::MAX as nat) {
            Some(n) => Some(n as u32),
            None => None,
        }
    }

    fn parse_text(s: &str) -> (r: Option<u32>) {
        match parse_unsigned(s, u32::MAX as u64) {
            Some(n) => Some(n as u32),
            None => None,
        }
    }
}

impl EnvNumber for usize {
    open spec fn parse_spec(s: Seq<char>) -> Option<usize> {
        match parse_unsigned_spec(s, usize::MAX as nat) {
            Some(n) => Some(n as usize),
            None => None,
        }
    }

    fn parse_text(s: &str) -> (r: Option<usize>) {
        match parse_unsigned(s, usize::MAX as u64) {
            Some(n) => Some(n as usize),
            None => None,
        }
    }
}

impl EnvNumber for i64 {
    open spec fn parse_spec(s: Seq<char>) -> Option<i64> {
        match parse_i64_spec(s) {
            Some(n) => Some(n as i64),
            None => None,
        }
    }

    fn parse_text(s: &str) -> (r: Option<i64>) {
        parse_i64(s)
    }
}

/// A number setting: the default when the value is missing or blank, the
/// parsed number when it parses, an error naming the value when it does not.
pub open spec fn parse_or_spec<T: EnvNumber>(key: Seq<char>, value: Option<Seq<char>>, default: T) -> Result<
    T,
    ConfigFault,
> {
    match value {
        Some(v) => if is_blank(v) {
            Ok(default)
        } else {
            match T::parse_spec(v) {
                Some(n) => Ok(n),
                None => Err(ConfigFault::Invalid(key, v)),
            }
        },
        None => Ok(default),
    }
}

/// The value of a number setting with a default.
pub fn env_parse_or<T: EnvNumber>(key: &str, value: Option<&str>, default: T) -> (r: Result<
    T,
    ConfigError,
>)
    ensures
        match parse_or_spec(key@, value_view(value), default) {
            Ok(n) => r == Ok::<T, ConfigError>(n),
            Err(e) => r is Err && r->Err_0@ == e,
        },
{
    match value {
        Some(v) => {
            if str_is_blank(v) {
                Ok(default)
            } else {
                match T::parse_text(v) {
                    Some(n) => Ok(n),
                    None => Err(ConfigError::Invalid { key: key.to_string(), value: v.to_string() }),
                }
            }
        },
        None => Ok(default),
    }
}

} // verus!
