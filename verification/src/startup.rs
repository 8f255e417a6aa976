//! The autostart registry entry: building the value the launcher writes
//! under the user's Run key, and deciding whether an existing entry is
//! current.  The binary does the registry reads and writes.

use vstd::prelude::*;
use crate::text;

verus! {

/// The verbatim-path prefix Windows canonicalization prepends.
pub open spec fn verbatim_prefix() -> Seq<char> {
    "\\\\?\\"@
}

/// A path with every verbatim prefix stripped, as the launcher stores it.
pub open spec fn cleaned_path(p: Seq<char>) -> Seq<char> {
    text::removed_all(p, verbatim_prefix())
}

/// Strip the verbatim prefix from a canonicalized executable path.
pub fn clean_exe_path(p: &str) -> (r: String)
    ensures
        r@ == cleaned_path(p@),
{
    proof {
        reveal_strlit("\\\\?\\");
    }
    text::remove_all(p, "\\\\?\\")
}

/// The registry value registering `exe_path` for autostart: the quoted
/// path followed by the start-minimized switch.
pub open spec fn spec_startup_value(exe_path: Seq<char>) -> Seq<char> {
    "\""@ + exe_path + "\" --start-minimized"@
}

/// Build the autostart registry value for `exe_path`.
pub fn startup_registry_value(exe_path: &str) -> (r: String)
    ensures
        r@ == spec_startup_value(exe_path@),
{
    let mut r = String::from_str("\"");
    r.append(exe_path);
    r.append("\" --start-minimized");
    r
}

/// Whether the entry already in the registry, once its verbatim prefixes
/// are stripped, is exactly the value owed for `exe_path` (itself already
/// cleaned).  When this is false the entry must be rewritten.
pub fn startup_entry_current(existing: &str, exe_path: &str) -> (b: bool)
    ensures
        b == (cleaned_path(existing@) == spec_startup_value(exe_path@)),
{
    let cleaned = clean_exe_path(existing);
    let expected = startup_registry_value(exe_path);
    text::str_eq(cleaned.as_str(), expected.as_str())
}

} // verus!
