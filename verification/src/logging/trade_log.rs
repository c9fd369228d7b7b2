//! The trade log's file.

use vstd::prelude::*;
use vstd::string::StringExecFns;

verus! {

/// The path of a session's log.
pub fn log_path(logs_dir: &str, stamp: &str) -> (r: String)
    ensures
        r@ == logs_dir@ + "/trades_"@ + stamp@ + ".jsonl"@,
{
    let mut s: String = logs_dir.to_owned();
    s.append("/trades_");
    s.append(stamp);
    s.append(".jsonl");
    s
}

} // verus!
