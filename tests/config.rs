use std::str::FromStr;
use xcframework::config::{
    Architecture, Config, LibType, MaybeWorkspace, SupportedTargetPlatform, TargetPlatformConfig,
    TargetPlatformConfigVariant, TomlWorkspaceField,
};
use xcframework::platform::{ApplePlatform, Environment, EnvironmentWithoutCatalyst};

fn triples(ts: &[xcframework::targets::BuildTarget]) -> Vec<&str> {
    ts.iter().map(|t| t.triple.as_str()).collect()
}

#[test]
fn platform_config_defaults() {
    assert!(TargetPlatformConfig::default_enable());
    assert!(TargetPlatformConfig::default_simulator());
    assert_eq!(
        TargetPlatformConfig::default_archs(),
        vec![Architecture::Aarch64, Architecture::X86_64]
    );
}

#[test]
fn preset_targets_per_platform() {
    let ios = SupportedTargetPlatform::IOS.preset_targets();
    assert_eq!(
        triples(&ios),
        vec!["aarch64-apple-ios", "aarch64-apple-ios-sim", "x86_64-apple-ios"]
    );
    assert_eq!(ios[0].platform, ApplePlatform::IOS(Environment::Device));
    assert_eq!(ios[2].platform, ApplePlatform::IOS(Environment::Simulator));
    let watch = SupportedTargetPlatform::WatchOS.preset_targets();
    assert_eq!(
        triples(&watch),
        vec!["aarch64-apple-watchos", "aarch64-apple-watchos-sim", "x86_64-apple-watchos-sim"]
    );
    assert_eq!(
        triples(&SupportedTargetPlatform::MacOS.preset_targets()),
        vec!["x86_64-apple-darwin", "aarch64-apple-darwin"]
    );
}

#[test]
fn custom_targets_follow_architectures_and_simulator_switch() {
    let archs = vec![Architecture::Aarch64, Architecture::X86_64, Architecture::Arm64e];
    let ios = SupportedTargetPlatform::IOS.to_targets(true, &archs);
    assert_eq!(
        triples(&ios),
        vec!["aarch64-apple-ios", "aarch64-apple-ios-sim", "x86_64-apple-ios", "arm64e-apple-ios"]
    );
    let ios_no_sim = SupportedTargetPlatform::IOS.to_targets(false, &archs);
    assert_eq!(triples(&ios_no_sim), vec!["aarch64-apple-ios", "arm64e-apple-ios"]);
    let tv_no_sim = SupportedTargetPlatform::TvOS.to_targets(false, &vec![Architecture::X86_64]);
    assert!(tv_no_sim.is_empty());
    let watch = SupportedTargetPlatform::WatchOS.to_targets(true, &archs);
    assert_eq!(
        triples(&watch),
        vec!["aarch64-apple-watchos", "aarch64-apple-watchos-sim", "x86_64-apple-watchos-sim"]
    );
    assert!(watch[1..]
        .iter()
        .all(|t| t.platform == ApplePlatform::WatchOS(EnvironmentWithoutCatalyst::Simulator)));
    let watch_no_sim = SupportedTargetPlatform::WatchOS.to_targets(false, &archs);
    assert_eq!(triples(&watch_no_sim), vec!["aarch64-apple-watchos"]);
    let mac = SupportedTargetPlatform::MacOS.to_targets(true, &archs);
    assert_eq!(
        triples(&mac),
        vec!["x86_64-apple-darwin", "aarch64-apple-darwin", "arm64e-apple-darwin"]
    );
    let tv = SupportedTargetPlatform::TvOS.to_targets(true, &vec![Architecture::X86_64]);
    assert_eq!(triples(&tv), vec!["x86_64-apple-tvos"]);
    assert_eq!(
        tv[0].platform,
        ApplePlatform::TvOS(EnvironmentWithoutCatalyst::Simulator)
    );
    assert!(SupportedTargetPlatform::WatchOS
        .to_targets(true, &vec![Architecture::ArmV7k])
        .is_empty());
}

fn config_with(platforms: Vec<(SupportedTargetPlatform, TargetPlatformConfigVariant)>) -> Config {
    let mut c = Config::empty();
    c.platforms = platforms;
    c
}

#[test]
fn config_targets_walk_entries_in_order() {
    let c = config_with(vec![
        (SupportedTargetPlatform::MacOS, TargetPlatformConfigVariant::Preset(true)),
        (SupportedTargetPlatform::TvOS, TargetPlatformConfigVariant::Preset(false)),
        (
            SupportedTargetPlatform::IOS,
            TargetPlatformConfigVariant::Custom(TargetPlatformConfig {
                enable: true,
                simulator: false,
                archs: vec![Architecture::Aarch64],
            }),
        ),
        (
            SupportedTargetPlatform::WatchOS,
            TargetPlatformConfigVariant::Custom(TargetPlatformConfig {
                enable: false,
                simulator: true,
                archs: vec![Architecture::Aarch64],
            }),
        ),
    ]);
    assert_eq!(
        triples(&c.targets()),
        vec!["x86_64-apple-darwin", "aarch64-apple-darwin", "aarch64-apple-ios"]
    );
}

#[test]
fn update_lays_source_over_settings() {
    let mut base = Config::empty();
    base.module_name = Some("Base".to_string());
    base.lib_type = Some(LibType::CDyLib);
    base.platforms = vec![
        (SupportedTargetPlatform::IOS, TargetPlatformConfigVariant::Preset(true)),
        (SupportedTargetPlatform::MacOS, TargetPlatformConfigVariant::Preset(true)),
    ];
    let mut src = Config::empty();
    src.include_dir = "include".to_string();
    src.zip = true;
    src.platforms = vec![
        (SupportedTargetPlatform::MacOS, TargetPlatformConfigVariant::Preset(false)),
        (SupportedTargetPlatform::TvOS, TargetPlatformConfigVariant::Preset(true)),
    ];
    base.update(&src);
    assert_eq!(base.module_name, Some("Base".to_string()));
    assert_eq!(base.lib_type, Some(LibType::CDyLib));
    assert_eq!(base.include_dir, "include");
    assert!(base.zip);
    let keys: Vec<SupportedTargetPlatform> = base.platforms.iter().map(|e| e.0).collect();
    assert_eq!(
        keys,
        vec![
            SupportedTargetPlatform::IOS,
            SupportedTargetPlatform::MacOS,
            SupportedTargetPlatform::TvOS
        ]
    );
    assert!(matches!(base.platforms[1].1, TargetPlatformConfigVariant::Preset(false)));
    assert_eq!(
        triples(&base.targets()),
        vec![
            "aarch64-apple-ios",
            "aarch64-apple-ios-sim",
            "x86_64-apple-ios",
            "aarch64-apple-tvos",
            "aarch64-apple-tvos-sim",
            "x86_64-apple-tvos"
        ]
    );
    let mut other = Config::empty();
    other.module_name = Some("Other".to_string());
    other.output_dir = Some("out".to_string());
    base.update(&other);
    assert_eq!(base.module_name, Some("Other".to_string()));
    assert_eq!(base.output_dir, Some("out".to_string()));
    assert_eq!(base.include_dir, "");
    assert!(!base.zip);
}

#[test]
fn lib_type_names() {
    assert_eq!(LibType::from_str("staticlib"), Ok(LibType::StaticLib));
    assert_eq!(LibType::from_str("cdylib"), Ok(LibType::CDyLib));
    assert_eq!(
        LibType::from_str("dylib"),
        Err("Unknown lib type: dylib".to_string())
    );
    assert_eq!(LibType::StaticLib.file_ending(), "a");
    assert_eq!(LibType::CDyLib.file_ending(), "dylib");
}

#[test]
fn workspace_fields() {
    let w: MaybeWorkspace<String> = MaybeWorkspace::Workspace(TomlWorkspaceField { workspace: true });
    assert!(matches!(w, MaybeWorkspace::Workspace(TomlWorkspaceField { workspace: true })));
    let d: MaybeWorkspace<String> = MaybeWorkspace::Defined("1.0".to_string());
    assert!(matches!(d, MaybeWorkspace::Defined(ref v) if v == "1.0"));
}
