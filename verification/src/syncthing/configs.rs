//! The remote-index variant's settings, decided from plain values. The
//! process around the library reads the environment and hands the raw
//! variable values in.

use vstd::prelude::*;

use crate::text::{digits_part, digits_val, is_numeral, parse_u16, parse_u64, parse_u8};

verus! {

/// An access key for the daemon's interface.
pub type AuthKey = String;

/// A port number.
pub type Port = u16;

/// A network address.
pub type Address = String;

/// Seconds between polls of the event feed.
pub type RequestInterval = u64;

/// Extra seconds each script start is delayed by.
pub type ScriptDelay = u8;

/// Where the user's scripts live.
pub type ScriptsPath = String;

/// The variant's settings.
#[derive(Debug, Clone)]
pub struct Configs {
    /// The access key for the daemon's interface.
    pub auth_key: AuthKey,
    /// The daemon's port.
    pub port: Port,
    /// The daemon's address.
    pub address: Address,
    /// Seconds between polls of the event feed.
    pub request_interval: RequestInterval,
    /// Extra seconds each script start is delayed by.
    pub script_delay: ScriptDelay,
    /// Where the user's scripts live.
    pub scripts_path: ScriptsPath,
}

/// Failure while interpreting the settings.
#[derive(Debug, Clone)]
pub enum ConfigError {
    /// A required variable is absent.
    MissingError(String),
    /// A value could not be interpreted.
    ParseError(String),
    /// A variable name did not match a known setting.
    StrumParseError(String),
    /// A numeric value could not be parsed.
    ParseIntError(String),
}

/// A value a setting may take.
pub trait ConfigValue {

}

/// Whether the text parses as a number within the given bound.
pub open spec fn parses_within(s: Seq<char>, bound: int) -> bool {
    is_numeral(s) && digits_val(digits_part(s)) <= bound
}

impl Configs {
    /// Decides the settings from the raw variable values. The access key
    /// is required; the port, poll interval, script delay and scripts
    /// path have defaults; a numeric value out of form or range is
    /// refused.
    pub fn load(
        auth_key_var: Option<String>,
        port_var: Option<String>,
        address_var: Option<String>,
        request_interval_var: Option<String>,
        script_delay_var: Option<String>,
        scripts_path_var: Option<String>,
    ) -> (r: Result<Configs, ConfigError>)
        ensures
            match r {
                Ok(c) => {
                    &&& auth_key_var matches Some(k) && c.auth_key@ == k@
                    &&& match port_var {
                        None => c.port == 8384,
                        Some(s) => is_numeral(s@) && digits_val(digits_part(s@)) == c.port,
                    }
                    &&& match address_var {
                        None => c.address@ == "http://127.0.0.1"@,
                        Some(a) => c.address@ == a@,
                    }
                    &&& match request_interval_var {
                        None => c.request_interval == 60,
                        Some(s) => is_numeral(s@) && digits_val(digits_part(s@))
                            == c.request_interval,
                    }
                    &&& match script_delay_var {
                        None => c.script_delay == 1,
                        Some(s) => is_numeral(s@) && digits_val(digits_part(s@))
                            == c.script_delay,
                    }
                    &&& match scripts_path_var {
                        None => c.scripts_path@ == "../scripts"@,
                        Some(p) => c.scripts_path@ == p@,
                    }
                },
                Err(e) => {
                    ||| (e is MissingError && auth_key_var is None)
                    ||| (e is ParseIntError && auth_key_var is Some && !(match port_var {
                        None => true,
                        Some(s) => parses_within(s@, u16::MAX as int),
                    } && match request_interval_var {
                        None => true,
                        Some(s) => parses_within(s@, u64::MAX as int),
                    } && match script_delay_var {
                        None => true,
                        Some(s) => parses_within(s@, u8::MAX as int),
                    }))
                },
            },
    {
        let auth_key = match auth_key_var {
            Some(k) => k,
            None => {
                return Err(
                    ConfigError::MissingError(
                        String::from_str("unable to find auth_key in the environment"),
                    ),
                );
            },
        };
        let port: u16 = match port_var {
            Some(s) => match parse_u16(s.as_str()) {
                Some(v) => v,
                None => {
                    return Err(
                        ConfigError::ParseIntError(
                            String::from_str(
                                "error parsing port from the environment, please check it and try again",
                            ),
                        ),
                    );
                },
            },
            None => 8384,
        };
        let address: String = match address_var {
            Some(a) => a,
            None => String::from_str("http://127.0.0.1"),
        };
        let request_interval: u64 = match request_interval_var {
            Some(s) => match parse_u64(s.as_str()) {
                Some(v) => v,
                None => {
                    return Err(
                        ConfigError::ParseIntError(
                            String::from_str(
                                "error parsing request interval from the environment, please check it and try again",
                            ),
                        ),
                    );
                },
            },
            None => 60,
        };
        let script_delay: u8 = match script_delay_var {
            Some(s) => match parse_u8(s.as_str()) {
                Some(v) => v,
                None => {
                    return Err(
                        ConfigError::ParseIntError(
                            String::from_str(
                                "error parsing script delay from the environment, please check it and try again",
                            ),
                        ),
                    );
                },
            },
            None => 1,
        };
        let scripts_path: String = match scripts_path_var {
            Some(p) => p,
            None => String::from_str("../scripts"),
        };
        Ok(Configs { auth_key, port, address, request_interval, script_delay, scripts_path })
    }
}

} // verus!
