use xcframework::config::{Architecture, SupportedTargetPlatform};
use xcframework::platform::{ApplePlatform, Environment, EnvironmentWithoutCatalyst};
use xcframework::configuration::XCFrameworkConfiguration;
use xcframework::targets::Target;
use xcframework::triple::{validate_section_targets, validate_triples, TripleExt, TripleInfo, TripleProblem};

fn info(arch: &str, vendor: &str, os: &str, env: &str, fmt: &str) -> TripleInfo {
    TripleInfo {
        architecture: arch.to_string(),
        vendor: vendor.to_string(),
        operating_system: os.to_string(),
        environment: env.to_string(),
        binary_format: fmt.to_string(),
    }
}

fn strings(xs: &[&str]) -> Vec<String> {
    xs.iter().map(|x| x.to_string()).collect()
}

#[test]
fn simulator_triples_are_recognised() {
    assert!(info("aarch64", "apple", "ios", "sim", "macho").is_apple_simulator());
    assert!(info("x86_64", "apple", "ios", "unknown", "macho").is_apple_simulator());
    assert!(info("x86_64", "apple", "tvos", "unknown", "macho").is_apple_simulator());
    assert!(!info("aarch64", "apple", "ios", "unknown", "macho").is_apple_simulator());
    assert!(!info("x86_64", "apple", "ios", "macabi", "macho").is_apple_simulator());
}

#[test]
fn triples_are_checked_against_their_platform() {
    assert_eq!(validate_triples(&strings(&["aarch64-apple-ios", "x86_64-apple-ios"]), "ios", false), Ok(()));
    let e = validate_triples(&strings(&["aarch64-apple-ios", "x86_64-apple-darwin"]), "ios", false)
        .unwrap_err();
    assert_eq!(e.triple, "x86_64-apple-darwin");
    assert_eq!(e.problem, TripleProblem::WrongOperatingSystem);
    let e = validate_triples(&strings(&["x86_64-apple-ios", "aarch64-apple-ios"]), "ios", true).unwrap_err();
    assert_eq!(e.triple, "aarch64-apple-ios");
    assert_eq!(e.problem, TripleProblem::NotSimulator);
    assert_eq!(validate_triples(&strings(&["aarch64-apple-ios-sim"]), "ios", true), Ok(()));
    let e = validate_triples(&strings(&["not a triple"]), "ios", false).unwrap_err();
    assert_eq!(e.problem, TripleProblem::Invalid);
    let e = validate_triples(&strings(&["x86_64-unknown-linux-gnu"]), "linux", false).unwrap_err();
    assert_eq!(e.problem, TripleProblem::NotApple);
    assert_eq!(validate_triples(&vec![], "ios", true), Ok(()));
}

#[test]
fn section_targets_are_validated() {
    let mut c = XCFrameworkConfiguration {
        include_dir: "include".to_string(),
        lib_type: None,
        zip: true,
        build_std: false,
        macOS: true,
        macOS_targets: Target::default_macos(),
        simulators: true,
        iOS: true,
        iOS_targets: Target::default_ios(),
        iOS_simulator_targets: Target::default_ios_sim(),
    };
    assert_eq!(validate_section_targets(&c), Ok(()));
    c.iOS_simulator_targets = vec![Target::iOS_Device];
    let e = validate_section_targets(&c).unwrap_err();
    assert_eq!(e.triple, "aarch64-apple-ios");
    assert_eq!(e.problem, TripleProblem::NotSimulator);
    c.macOS_targets = vec![Target::iOS_Device];
    let e = validate_section_targets(&c).unwrap_err();
    assert_eq!(e.problem, TripleProblem::WrongOperatingSystem);
}

#[test]
fn simulator_lists_hold_only_simulator_triples() {
    let sims = [
        (ApplePlatform::IOS(Environment::Simulator), "ios"),
        (ApplePlatform::TvOS(EnvironmentWithoutCatalyst::Simulator), "tvos"),
        (ApplePlatform::WatchOS(EnvironmentWithoutCatalyst::Simulator), "watchos"),
    ];
    for (p, os) in sims {
        let list: Vec<String> = p.rustup_targets().iter().map(|t| t.to_string()).collect();
        assert_eq!(validate_triples(&list, os, true), Ok(()));
    }
    let archs = vec![Architecture::Aarch64, Architecture::X86_64];
    for (family, os) in [
        (SupportedTargetPlatform::IOS, "ios"),
        (SupportedTargetPlatform::TvOS, "tvos"),
        (SupportedTargetPlatform::WatchOS, "watchos"),
    ] {
        let sim: Vec<String> = family
            .to_targets(true, &archs)
            .into_iter()
            .filter(|t| {
                matches!(
                    t.platform,
                    ApplePlatform::IOS(Environment::Simulator)
                        | ApplePlatform::TvOS(EnvironmentWithoutCatalyst::Simulator)
                        | ApplePlatform::WatchOS(EnvironmentWithoutCatalyst::Simulator)
                )
            })
            .map(|t| t.triple)
            .collect();
        assert_eq!(sim.len(), 2);
        assert_eq!(validate_triples(&sim, os, true), Ok(()));
    }
}
