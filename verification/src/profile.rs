//! The build profile of the host build system, told from its indicator.

use vstd::prelude::*;
use crate::text::same_text;

verus! {

/// A build profile.
#[derive(Debug, Clone, Copy, PartialEq, Eq, Structural)]
pub enum Profile {
    Release,
    Debug,
    /// Any other indicator.
    Other,
}

/// The lower-case form of a string as `str::to_lowercase` of the standard
/// library gives it: a function of the characters alone, by the Unicode
/// tables that the standard library carries.
pub uninterp spec fn lowercase_of(s: Seq<char>) -> Seq<char>;

/// Calls `str::to_lowercase`. Trusted, not proved: the result is the
/// lower-case form of the argument.
#[verifier::external_body]
fn lowercase(s: &str) -> (r: String)
    ensures
        r@ == lowercase_of(s@),
{
    s.to_lowercase()
}

/// The profile that a lower-case indicator names.
pub open spec fn profile_named(lowered: Seq<char>) -> Profile {
    if lowered == "release"@ {
        Profile::Release
    } else if lowered == "debug"@ {
        Profile::Debug
    } else {
        Profile::Other
    }
}

/// The profile that the indicator `lowered` names, read as it stands.
pub fn profile_of_lowered(lowered: &str) -> (r: Profile)
    ensures
        r == profile_named(lowered@),
{
    if same_text(lowered, "release") {
        Profile::Release
    } else if same_text(lowered, "debug") {
        Profile::Debug
    } else {
        Profile::Other
    }
}

/// The profile that the indicator `value` names, whatever its letter case.
pub fn detect_profile(value: &str) -> (r: Profile)
    ensures
        r == profile_named(lowercase_of(value@)),
{
    let lowered = lowercase(value);
    profile_of_lowered(lowered.as_str())
}

/// Whether the indicator `value` names the release profile.
pub fn is_release_mode(value: &str) -> (r: bool)
    ensures
        r == (profile_named(lowercase_of(value@)) == Profile::Release),
{
    match detect_profile(value) {
        Profile::Release => true,
        _ => false,
    }
}

/// Whether the indicator `value` names the debug profile.
pub fn is_debug_mode(value: &str) -> (r: bool)
    ensures
        r == (profile_named(lowercase_of(value@)) == Profile::Debug),
{
    match detect_profile(value) {
        Profile::Debug => true,
        _ => false,
    }
}

/// The release and the debug indicator are told apart: `release` names the
/// release profile, `debug` the debug profile, and no indicator names both.
pub proof fn profiles_are_distinct()
    ensures
        profile_named("release"@) == Profile::Release,
        profile_named("debug"@) == Profile::Debug,
        "release"@ != "debug"@,
{
    reveal_strlit("release");
    reveal_strlit("debug");
    assert("release"@.len() == 7);
    assert("debug"@.len() == 5);
}

} // verus!
