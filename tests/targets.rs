use std::str::FromStr;
use xcframework::targets::Target;

#[test]
fn default_target_lists() {
    assert_eq!(Target::default_macos(), vec![Target::macOS_x86, Target::macOS_aarch]);
    assert_eq!(Target::default_ios(), vec![Target::iOS_Device]);
    assert_eq!(
        Target::default_ios_sim(),
        vec![Target::iOS_aarch_Simulator, Target::iOS_x86_Simulator]
    );
}

#[test]
fn targets_round_trip_through_their_triples() {
    for t in [
        Target::iOS_Device,
        Target::iOS_aarch_Simulator,
        Target::iOS_x86_Simulator,
        Target::macOS_aarch,
        Target::macOS_x86,
    ] {
        assert_eq!(Target::from_str(t.as_str()), Ok(t));
    }
    assert_eq!(Target::iOS_aarch_Simulator.as_str(), "aarch64-apple-ios-sim");
}

#[test]
fn unknown_triple_is_refused() {
    assert_eq!(
        Target::from_str("aarch64-apple-tvos"),
        Err("Unknown target: aarch64-apple-tvos".to_string())
    );
}
