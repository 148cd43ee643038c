use vstd::prelude::*;
use vstd::string::StringExecFns;

verus! {

/// The settings the heartbeat caller runs with, once extracted from its
/// configuration sources: the authorization token, the service base URL,
/// and the directory the log file lives in.
#[derive(Debug)]
pub struct Config {
    pub token: String,
    pub base_url: String,
    pub log_dir: String,
}

impl Config {
    /// Assembles a configuration from already-extracted settings.
    pub fn new(token: String, base_url: String, log_dir: String) -> (c: Config)
        ensures
            c.token@ == token@,
            c.base_url@ == base_url@,
            c.log_dir@ == log_dir@,
    {
        Config { token, base_url, log_dir }
    }

    /// The directory the log file lives in.
    pub fn log_dir(&self) -> (dir: &str)
        ensures
            dir@ == self.log_dir@,
    {
        self.log_dir.as_str()
    }
}

/// Where the log directory comes from: an explicit setting wins; otherwise
/// it is `heartbeat` under the cache directory, or bare `heartbeat` when
/// no cache directory is known.
pub fn resolve_log_dir(configured: Option<String>, cache: Option<String>) -> (dir: String)
    ensures
        configured matches Some(s) ==> dir@ == s@,
        configured is None && cache is None ==> dir@ == "heartbeat"@,
        cache matches Some(c) ==> (configured is None ==> if c@.len() == 0 {
            dir@ == "heartbeat"@
        } else {
            dir@ == c@ + "/heartbeat"@
        }),
{
    match configured {
        Some(s) => s,
        None => match cache {
            Some(c) => {
                if c.as_str().is_empty() {
                    String::from_str("heartbeat")
                } else {
                    c.concat("/heartbeat")
                }
            },
            None => String::from_str("heartbeat"),
        },
    }
}

} // verus!
