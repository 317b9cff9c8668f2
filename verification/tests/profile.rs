use native_build::profile::{
    detect_profile, is_debug_mode, is_release_mode, profile_of_lowered, Profile,
};

#[test]
fn release_indicator_in_any_letter_case() {
    assert!(is_release_mode("release"));
    assert!(is_release_mode("RELEASE"));
    assert!(is_release_mode("Release"));
    assert!(!is_release_mode("debug"));
    assert!(!is_release_mode(""));
    assert!(!is_release_mode("release "));
}

#[test]
fn debug_indicator_in_any_letter_case() {
    assert!(is_debug_mode("debug"));
    assert!(is_debug_mode("DEBUG"));
    assert!(is_debug_mode("Debug"));
    assert!(!is_debug_mode("release"));
    assert!(!is_debug_mode("dbg"));
}

#[test]
fn other_indicators_are_neither() {
    assert_eq!(detect_profile("bench"), Profile::Other);
    assert_eq!(detect_profile(""), Profile::Other);
    assert_eq!(detect_profile("RELEASE"), Profile::Release);
    assert_eq!(detect_profile("dEbUg"), Profile::Debug);
    assert!(!is_release_mode("bench") && !is_debug_mode("bench"));
}

#[test]
fn lowered_indicator_is_read_as_it_stands() {
    assert_eq!(profile_of_lowered("release"), Profile::Release);
    assert_eq!(profile_of_lowered("debug"), Profile::Debug);
    assert_eq!(profile_of_lowered("RELEASE"), Profile::Other);
    assert_eq!(profile_of_lowered("Debug"), Profile::Other);
    assert_eq!(profile_of_lowered("releas"), Profile::Other);
}
