//! Where the rolling log file lives, by operating system. The process
//! around the library passes the system name and home dir in and opens
//! the file itself.

use vstd::prelude::*;

use crate::logger::structs::Logger;
use crate::text::str_eq;

verus! {

broadcast use vstd::string::group_string_axioms;

impl Logger {
    /// The fixed log path on linux systems.
    pub fn linux_log_path() -> (r: Option<String>)
        ensures
            r matches Some(p) && p@ == "/var/log/rusty-hooks.log"@,
    {
        Some(String::from_str("/var/log/rusty-hooks.log"))
    }

    /// The log path under the user's home on mac systems.
    pub fn mac_log_path(home_dir: &str) -> (r: Option<String>)
        ensures
            r matches Some(p) && p@ == home_dir@ + "/Library/rusty-hooks/logs/rusty-hooks.log"@,
    {
        let mut p = String::new();
        p.append(home_dir);
        p.append("/Library/rusty-hooks/logs/rusty-hooks.log");
        Some(p)
    }

    /// The log file for the given operating system: a fixed path on
    /// linux, one under the home dir on mac, none elsewhere — then only
    /// the console is logged to.
    pub fn log_path_if_linux_or_mac(os: &str, home_dir: &str) -> (r: Option<String>)
        ensures
            os@ == "linux"@ ==> (r matches Some(p) && p@ == "/var/log/rusty-hooks.log"@),
            os@ == "mac"@ ==> (r matches Some(p) && p@ == home_dir@
                + "/Library/rusty-hooks/logs/rusty-hooks.log"@),
            os@ != "linux"@ && os@ != "mac"@ ==> r is None,
    {
        proof {
            reveal_strlit("linux");
            reveal_strlit("mac");
            assert("linux"@.len() == 5);
            assert("mac"@.len() == 3);
            assert("linux"@ != "mac"@);
        }
        if str_eq(os, "linux") {
            Self::linux_log_path()
        } else if str_eq(os, "mac") {
            Self::mac_log_path(home_dir)
        } else {
            None
        }
    }
}

} // verus!
