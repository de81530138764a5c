//! The directory scan's filename rule.
//!
//! When a directory is expanded, only files whose names end in `.log` are
//! tracked, and among those the `*.error.log` files are skipped unless the
//! caller asks for them. The rule is stated and checked over the name's
//! UTF-8 bytes; walking the directory itself is I/O and happens outside the
//! library.

use vstd::prelude::*;
use vstd::string::StringSliceAdditionalSpecFns;

verus! {

/// True when the byte string ends in `.log`
/// (the bytes `.`, `l`, `o`, `g`).
pub open spec fn spec_is_log_name(name: Seq<u8>) -> bool {
    &&& name.len() >= 4
    &&& name[name.len() - 4] == 46
    &&& name[name.len() - 3] == 108
    &&& name[name.len() - 2] == 111
    &&& name[name.len() - 1] == 103
}

/// True when the byte string ends in `.error.log`
/// (the bytes `.`, `e`, `r`, `r`, `o`, `r` before `.log`).
pub open spec fn spec_is_error_log_name(name: Seq<u8>) -> bool {
    &&& spec_is_log_name(name)
    &&& name.len() >= 10
    &&& name[name.len() - 10] == 46
    &&& name[name.len() - 9] == 101
    &&& name[name.len() - 8] == 114
    &&& name[name.len() - 7] == 114
    &&& name[name.len() - 6] == 111
    &&& name[name.len() - 5] == 114
}

/// What the directory scan does with one file of a given name.
pub enum FilenameClass {
    /// The name ends in `.log` and is wanted: track the file.
    Track,
    /// The name ends in `.error.log` and error logs were not asked for.
    SkippedErrorLog,
    /// The name does not end in `.log`.
    NotALogFile,
}

/// True when the last four of `name`'s bytes are `.log`.
pub fn is_log_name(name: &[u8]) -> (r: bool)
    ensures
        r == spec_is_log_name(name@),
{
    let n = name.len();
    n >= 4 && name[n - 4] == 46 && name[n - 3] == 108 && name[n - 2] == 111 && name[n - 1] == 103
}

/// True when the last ten of `name`'s bytes are `.error.log`.
pub fn is_error_log_name(name: &[u8]) -> (r: bool)
    ensures
        r == spec_is_error_log_name(name@),
{
    let n = name.len();
    is_log_name(name) && n >= 10 && name[n - 10] == 46 && name[n - 9] == 101 && name[n - 8] == 114
        && name[n - 7] == 114 && name[n - 6] == 111 && name[n - 5] == 114
}

/// Decide what the directory scan does with a file named `name`: track
/// every `*.log` file, but skip the `*.error.log` files unless
/// `include_error_logs` asks for them. Files given on the command line
/// directly are not passed through this rule.
pub fn classify_filename(name: &str, include_error_logs: bool) -> (r: FilenameClass)
    ensures
        r is Track <==> spec_is_log_name(name.spec_bytes()) && (include_error_logs
            || !spec_is_error_log_name(name.spec_bytes())),
        r is SkippedErrorLog <==> spec_is_error_log_name(name.spec_bytes())
            && !include_error_logs,
        r is NotALogFile <==> !spec_is_log_name(name.spec_bytes()),
{
    let bytes = name.as_bytes();
    if !is_log_name(bytes) {
        FilenameClass::NotALogFile
    } else if !include_error_logs && is_error_log_name(bytes) {
        FilenameClass::SkippedErrorLog
    } else {
        FilenameClass::Track
    }
}

} // verus!
