//! The watcher's environment-backed settings, decided from plain values.
//! The process around the library reads the environment and hands the raw
//! variable values in.

use vstd::prelude::*;

use crate::text::{digits_part, digits_val, is_numeral, parse_u8};

verus! {

/// The watcher's settings.
#[derive(Debug, Clone)]
pub struct Configs {
    /// Extra seconds each script start is delayed by.
    pub script_delay: u8,
    /// Where the user's scripts live.
    pub scripts_path: String,
}

/// Failure while interpreting the settings.
#[derive(Debug, Clone)]
pub enum ConfigError {
    /// A required variable is absent.
    MissingError(String),
    /// A value could not be interpreted.
    ParseError(String),
    /// A variable name did not match a known setting.
    StrumParseError(String),
    /// A numeric value could not be parsed.
    ParseIntError(String),
}

/// A value a setting may take.
pub trait ConfigValue {

}

impl Configs {
    /// Decides the settings from the raw variable values: a missing delay
    /// falls back to one second, a missing scripts path to the
    /// conventional folder; a delay that is no number within range is
    /// refused.
    pub fn load(script_delay_var: Option<String>, scripts_path_var: Option<String>) -> (r: Result<
        Configs,
        ConfigError,
    >)
        ensures
            match r {
                Ok(c) => {
                    &&& match script_delay_var {
                        None => c.script_delay == 1,
                        Some(s) => is_numeral(s@) && digits_val(digits_part(s@))
                            == c.script_delay,
                    }
                    &&& match scripts_path_var {
                        None => c.scripts_path@ == "user_scripts/"@,
                        Some(p) => c.scripts_path@ == p@,
                    }
                },
                Err(e) => {
                    &&& script_delay_var matches Some(s) && !(is_numeral(s@) && digits_val(
                        digits_part(s@),
                    ) <= u8::MAX)
                    &&& e is ParseIntError
                },
            },
    {
        let script_delay: u8 = match script_delay_var {
            Some(s) => match parse_u8(s.as_str()) {
                Some(v) => v,
                None => {
                    return Err(
                        ConfigError::ParseIntError(
                            String::from_str(
                                "error parsing script delay from the environment, please check it and try again",
                            ),
                        ),
                    );
                },
            },
            None => 1,
        };
        let scripts_path: String = match scripts_path_var {
            Some(p) => p,
            None => String::from_str("user_scripts/"),
        };
        Ok(Configs { script_delay, scripts_path })
    }
}

} // verus!
