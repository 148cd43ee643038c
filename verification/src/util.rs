use vstd::prelude::*;
use vstd::string::StringExecFns;

verus! {

/// The per-user cache directory: `Library/Caches` under the home
/// directory, or nothing when no home directory is known.
pub fn cache_dir(home: Option<String>) -> (dir: Option<String>)
    ensures
        home matches Some(h) ==> (dir matches Some(d) && d@ == h@ + "/Library/Caches"@),
        home is None ==> dir is None,
{
    match home {
        Some(h) => Some(h.concat("/Library/Caches")),
        None => None,
    }
}

/// The per-user configuration directory: `Library/Application Support`
/// under the home directory, or nothing when no home directory is known.
pub fn config_dir(home: Option<String>) -> (dir: Option<String>)
    ensures
        home matches Some(h) ==> (dir matches Some(d) && d@ == h@ + "/Library/Application Support"@),
        home is None ==> dir is None,
{
    match home {
        Some(h) => Some(h.concat("/Library/Application Support")),
        None => None,
    }
}

} // verus!
