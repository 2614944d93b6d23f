//! The update-command hint shown after a dry run, computed from the
//! caller's verbosity: silence wins, and the verbosity flag repeats
//! with the log level, four steps at most.

use vstd::prelude::*;
use vstd::string::StringExecFns;

verus! {

/// The hint for a given verbosity: `-q` when silent, one `-v` step per
/// log level above errors, capped at four.
pub open spec fn spec_update_command(silent: bool, level: int) -> Seq<char> {
    if silent {
        "npd -q -u"@
    } else if level >= 4 {
        "npd -vvvv -u"@
    } else if level == 3 {
        "npd -vvv -u"@
    } else if level == 2 {
        "npd -vv -u"@
    } else if level == 1 {
        "npd -v -u"@
    } else {
        "npd -u"@
    }
}

/// Renders the update-command hint.  `level_value` is the numeric log
/// level: below one, no verbosity flag is shown.
pub fn generate_update_command(silent: bool, level_value: i8) -> (r: String)
    ensures
        r@ == spec_update_command(silent, level_value as int),
{
    if silent {
        String::from_str("npd -q -u")
    } else if level_value >= 4 {
        String::from_str("npd -vvvv -u")
    } else if level_value == 3 {
        String::from_str("npd -vvv -u")
    } else if level_value == 2 {
        String::from_str("npd -vv -u")
    } else if level_value == 1 {
        String::from_str("npd -v -u")
    } else {
        String::from_str("npd -u")
    }
}

} // verus!
