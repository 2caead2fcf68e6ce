//! What the process collector decides about the facts it gathers: where an
//! executable runs from, and how old its file is in days.
use vstd::prelude::*;

use crate::text::{chars_of, contains_chars, contains_text};
use crate::types::RunLocation;

verus! {

broadcast use vstd::string::group_string_axioms;

/// What `str::to_lowercase` gives for a string: its Unicode lowercase
/// mapping, character by character, with context-dependent rules.
pub uninterp spec fn lowercase(s: Seq<char>) -> Seq<char>;

/// Lowercases `s` with `str::to_lowercase`.
#[verifier::external_body]
fn to_lowercase(s: &str) -> (r: String)
    ensures
        r@ == lowercase(s@),
{
    s.to_lowercase()
}

/// Where an executable runs from, judged from its lowercased path.
pub open spec fn location_of_lowercase(path: Seq<char>) -> RunLocation {
    if contains_text(path, "\\windows\\system32"@) {
        RunLocation::System32
    } else if contains_text(path, "\\program files"@) {
        RunLocation::ProgramFiles
    } else if contains_text(path, "\\appdata\\local\\temp"@) || contains_text(path, "\\temp\\"@) {
        RunLocation::Temp
    } else if contains_text(path, "\\downloads\\"@) {
        RunLocation::Downloads
    } else if contains_text(path, "\\appdata\\"@) {
        RunLocation::AppData
    } else {
        RunLocation::Other
    }
}

/// Whether the text `needle` occurs in `hay`.
fn holds(hay: &Vec<char>, needle: &str) -> (r: bool)
    ensures
        r == contains_text(hay@, needle@),
{
    let n = chars_of(needle);
    contains_chars(hay.as_slice(), n.as_slice())
}

/// Where an executable runs from, given its path already lowercased.
pub fn classify_lowercase_path(lower: &str) -> (loc: RunLocation)
    ensures
        loc == location_of_lowercase(lower@),
{
    let path = chars_of(lower);
    if holds(&path, "\\windows\\system32") {
        RunLocation::System32
    } else if holds(&path, "\\program files") {
        RunLocation::ProgramFiles
    } else if holds(&path, "\\appdata\\local\\temp") || holds(&path, "\\temp\\") {
        RunLocation::Temp
    } else if holds(&path, "\\downloads\\") {
        RunLocation::Downloads
    } else if holds(&path, "\\appdata\\") {
        RunLocation::AppData
    } else {
        RunLocation::Other
    }
}

/// Where an executable runs from, judged case-insensitively from its path.
pub fn classify_run_location(exe_path: &str) -> (loc: RunLocation)
    ensures
        loc == location_of_lowercase(lowercase(exe_path@)),
{
    let lower = to_lowercase(exe_path);
    classify_lowercase_path(lower.as_str())
}

/// The age in whole days of a file that is `secs` seconds old, as the
/// collector computes it: the seconds taken as an `i64` (wrapping past
/// `i64::MAX`) and divided by 86400, rounding toward zero.
pub open spec fn age_in_days(secs: nat) -> int {
    if secs <= i64::MAX {
        (secs / 86400) as int
    } else {
        -(((0x1_0000_0000_0000_0000 - secs) as nat / 86400) as int)
    }
}

/// The age in days of a file that is `secs` seconds old.
pub fn days_from_secs(secs: u64) -> (days: i64)
    ensures
        days as int == age_in_days(secs as nat),
{
    if secs <= 0x7fff_ffff_ffff_ffff {
        (secs / 86400) as i64
    } else {
        let below: u64 = (u64::MAX - secs) + 1;
        let whole: u64 = below / 86400;
        0i64 - (whole as i64)
    }
}

/// Where a lowercased path runs from, checked in this order: a System32
/// path, then Program Files, then a temp folder (`\temp\` anywhere in the
/// path, as in `c:\windows\temp\`, or AppData's local temp folder), then
/// Downloads, then AppData; anything else is Other.
pub proof fn run_location_order(path: Seq<char>)
    ensures
        contains_text(path, "\\windows\\system32"@) ==> location_of_lowercase(path)
            == RunLocation::System32,
        !contains_text(path, "\\windows\\system32"@) && contains_text(path, "\\program files"@)
            ==> location_of_lowercase(path) == RunLocation::ProgramFiles,
        !contains_text(path, "\\windows\\system32"@) && !contains_text(path, "\\program files"@)
            && (contains_text(path, "\\temp\\"@) || contains_text(path, "\\appdata\\local\\temp"@))
            ==> location_of_lowercase(path) == RunLocation::Temp,
        !contains_text(path, "\\windows\\system32"@) && !contains_text(path, "\\program files"@)
            && !contains_text(path, "\\temp\\"@) && !contains_text(path, "\\appdata\\local\\temp"@)
            && contains_text(path, "\\downloads\\"@) ==> location_of_lowercase(path)
            == RunLocation::Downloads,
        !contains_text(path, "\\windows\\system32"@) && !contains_text(path, "\\program files"@)
            && !contains_text(path, "\\temp\\"@) && !contains_text(path, "\\appdata\\local\\temp"@)
            && !contains_text(path, "\\downloads\\"@) && contains_text(path, "\\appdata\\"@)
            ==> location_of_lowercase(path) == RunLocation::AppData,
        !contains_text(path, "\\windows\\system32"@) && !contains_text(path, "\\program files"@)
            && !contains_text(path, "\\temp\\"@) && !contains_text(path, "\\appdata\\local\\temp"@)
            && !contains_text(path, "\\downloads\\"@) && !contains_text(path, "\\appdata\\"@)
            ==> location_of_lowercase(path) == RunLocation::Other,
{
}

} // verus!
