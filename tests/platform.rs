use xcframework::platform::{ApplePlatform, Environment, EnvironmentWithoutCatalyst};

#[test]
fn platform_names() {
    let p = ApplePlatform::IOS(Environment::Simulator);
    assert_eq!(p.platform_display_name(), "iOS Simulator");
    assert_eq!(p.platform_name(), "iphonesimulator");
    assert_eq!(p.linker_platform_name(), "ios-simulator");
    assert_eq!(p.library_name_suffix(), "iossim");
    assert_eq!(p.dir_name(), "IOS(Simulator)");
    assert_eq!(ApplePlatform::MacOS.platform_name(), "macosx");
    assert_eq!(ApplePlatform::IOS(Environment::Catalyst).library_name_suffix(), "osx");
    let w = ApplePlatform::WatchOS(EnvironmentWithoutCatalyst::Simulator);
    assert_eq!(w.platform_name(), "watchsimulator");
    assert_eq!(w.platform_display_name(), "watchOS Simulator");
}

#[test]
fn directory_names_match_debug_output() {
    let all = [
        ApplePlatform::MacOS,
        ApplePlatform::IOS(Environment::Device),
        ApplePlatform::IOS(Environment::Simulator),
        ApplePlatform::IOS(Environment::Catalyst),
        ApplePlatform::TvOS(EnvironmentWithoutCatalyst::Device),
        ApplePlatform::TvOS(EnvironmentWithoutCatalyst::Simulator),
        ApplePlatform::WatchOS(EnvironmentWithoutCatalyst::Device),
        ApplePlatform::WatchOS(EnvironmentWithoutCatalyst::Simulator),
    ];
    for p in all {
        assert_eq!(p.dir_name(), format!("{:?}", p));
    }
}

#[test]
fn rustup_targets_per_platform() {
    assert_eq!(
        ApplePlatform::MacOS.rustup_targets(),
        vec!["x86_64-apple-darwin", "aarch64-apple-darwin"]
    );
    assert_eq!(
        ApplePlatform::IOS(Environment::Device).rustup_targets(),
        vec!["aarch64-apple-ios"]
    );
    assert_eq!(
        ApplePlatform::WatchOS(EnvironmentWithoutCatalyst::Device).rustup_targets(),
        vec!["armv7k-apple-watchos", "arm64_32-apple-watchos"]
    );
    assert_eq!(
        ApplePlatform::WatchOS(EnvironmentWithoutCatalyst::Simulator).rustup_targets(),
        vec!["x86_64-apple-watchos-sim", "aarch64-apple-watchos-sim"]
    );
}

#[test]
fn minimum_os_versions_fall_back_to_defaults() {
    assert_eq!(ApplePlatform::MacOS.min_os_version(None), "10.12");
    assert_eq!(ApplePlatform::IOS(Environment::Device).min_os_version(None), "10.0");
    assert_eq!(
        ApplePlatform::TvOS(EnvironmentWithoutCatalyst::Simulator).min_os_version(None),
        "10.0"
    );
    assert_eq!(
        ApplePlatform::WatchOS(EnvironmentWithoutCatalyst::Device).min_os_version(None),
        "5.0"
    );
    assert_eq!(
        ApplePlatform::MacOS.min_os_version(Some("11.0".to_string())),
        "11.0"
    );
    assert_eq!(
        ApplePlatform::IOS(Environment::Simulator).deployment_target_var(),
        "IPHONEOS_DEPLOYMENT_TARGET"
    );
    assert_eq!(ApplePlatform::MacOS.deployment_target_var(), "MACOSX_DEPLOYMENT_TARGET");
}
