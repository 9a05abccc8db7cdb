use xcframework::config::LibType;
use xcframework::configuration::{
    resolve_lib_type, zip_default, Cli, ConfigError, Configuration, PackageTarget,
    XCFrameworkConfiguration,
};
use xcframework::targets::Target;

fn cli() -> Cli {
    Cli {
        lib_type: None,
        quiet: false,
        package: None,
        verbose: 0,
        release: false,
        profile: None,
        features: vec![],
        all_features: false,
        no_default_features: false,
        manifest_path: None,
        target_dir: None,
        unstable_flags: None,
    }
}

fn section() -> XCFrameworkConfiguration {
    XCFrameworkConfiguration {
        include_dir: "include".to_string(),
        lib_type: None,
        zip: zip_default(),
        build_std: false,
        macOS: true,
        macOS_targets: Target::default_macos(),
        simulators: false,
        iOS: false,
        iOS_targets: Target::default_ios(),
        iOS_simulator_targets: Target::default_ios_sim(),
    }
}

fn lib(name: &str, is_staticlib: bool, is_cdylib: bool) -> PackageTarget {
    PackageTarget { name: name.to_string(), is_staticlib, is_cdylib }
}

#[test]
fn only_staticlib_resolves_to_static() {
    let ts = vec![lib("mymath", true, false)];
    assert_eq!(
        resolve_lib_type(&ts, None),
        Ok((LibType::StaticLib, "mymath".to_string()))
    );
}

#[test]
fn only_cdylib_resolves_to_dynamic() {
    let ts = vec![lib("bin", false, false), lib("mymath", false, true)];
    assert_eq!(
        resolve_lib_type(&ts, None),
        Ok((LibType::CDyLib, "mymath".to_string()))
    );
}

#[test]
fn both_kinds_without_choice_is_ambiguous() {
    let ts = vec![lib("mymath", true, true)];
    assert_eq!(resolve_lib_type(&ts, None), Err(ConfigError::AmbiguousLibType));
    assert_eq!(
        resolve_lib_type(&ts, Some(LibType::CDyLib)),
        Ok((LibType::CDyLib, "mymath".to_string()))
    );
    assert_eq!(
        resolve_lib_type(&ts, Some(LibType::StaticLib)),
        Ok((LibType::StaticLib, "mymath".to_string()))
    );
}

#[test]
fn choice_of_undeclared_kind_names_it() {
    let st = vec![lib("mymath", true, false)];
    assert_eq!(
        resolve_lib_type(&st, Some(LibType::CDyLib)),
        Err(ConfigError::MissingCdylib)
    );
    let dy = vec![lib("mymath", false, true)];
    assert_eq!(
        resolve_lib_type(&dy, Some(LibType::StaticLib)),
        Err(ConfigError::MissingStaticlib)
    );
}

#[test]
fn no_library_is_an_error() {
    assert_eq!(resolve_lib_type(&vec![], None), Err(ConfigError::MissingCrateType));
    let ts = vec![lib("bin", false, false)];
    assert_eq!(
        resolve_lib_type(&ts, Some(LibType::StaticLib)),
        Err(ConfigError::MissingCrateType)
    );
}

#[test]
fn chosen_targets_follow_switches() {
    let mut s = section();
    assert_eq!(s.chosen_targets(), vec![Target::macOS_x86, Target::macOS_aarch]);
    s.iOS = true;
    s.simulators = true;
    assert_eq!(
        s.chosen_targets(),
        vec![
            Target::macOS_x86,
            Target::macOS_aarch,
            Target::iOS_Device,
            Target::iOS_aarch_Simulator,
            Target::iOS_x86_Simulator
        ]
    );
    s.macOS = false;
    s.iOS = false;
    assert!(s.chosen_targets().is_empty());
}

#[test]
fn validation_checks_include_dir_and_platforms() {
    let mut s = section();
    s.include_dir = String::new();
    assert_eq!(s.validated(true).unwrap_err(), ConfigError::IncludeDirRequired);
    assert_eq!(
        section().validated(false).unwrap_err(),
        ConfigError::IncludeDirNotFound("include".to_string())
    );
    let mut s = section();
    s.macOS = false;
    assert_eq!(s.validated(true).unwrap_err(), ConfigError::NothingToBuild);
    assert!(section().validated(true).is_ok());
}

#[test]
fn include_dir_is_taken_relative_to_the_package() {
    let s = section().in_package_dir("examples/mymath-lib");
    assert_eq!(s.include_dir, "examples/mymath-lib/include");
    let mut a = section();
    a.include_dir = "/abs/include".to_string();
    assert_eq!(a.in_package_dir("pkg").include_dir, "/abs/include");
}

#[test]
fn configuration_resolves_directories_and_kind() {
    let ts = vec![lib("my-math", true, false)];
    let c = Configuration::new("/work/target", &ts, cli(), section()).unwrap();
    assert_eq!(c.target_dir, "/work/target");
    assert_eq!(c.build_dir, "/work/target/xcframework");
    assert_eq!(c.lib_type, LibType::StaticLib);
    assert_eq!(c.lib_name, "my-math");
    assert_eq!(c.cli.unstable_flags, None);
    assert_eq!(c.module_name(), None);

    let mut with_dir = cli();
    with_dir.target_dir = Some("out".to_string());
    let c = Configuration::new("/work/target", &ts, with_dir, section()).unwrap();
    assert_eq!(c.target_dir, "out");
    assert_eq!(c.build_dir, "out/xcframework");
}

#[test]
fn section_kind_is_used_when_cli_gives_none() {
    let ts = vec![lib("mymath", true, true)];
    let mut s = section();
    s.lib_type = Some(LibType::CDyLib);
    let c = Configuration::new("t", &ts, cli(), s).unwrap();
    assert_eq!(c.lib_type, LibType::CDyLib);
    let mut choose = cli();
    choose.lib_type = Some(LibType::StaticLib);
    let mut s = section();
    s.lib_type = Some(LibType::CDyLib);
    let c = Configuration::new("t", &ts, choose, s).unwrap();
    assert_eq!(c.lib_type, LibType::StaticLib);
    let e = Configuration::new("t", &ts, cli(), section()).unwrap_err();
    assert_eq!(e, ConfigError::AmbiguousLibType);
}

#[test]
fn build_std_adds_unstable_flag_once() {
    let ts = vec![lib("mymath", true, false)];
    let mut s = section();
    s.build_std = true;
    let c = Configuration::new("t", &ts, cli(), s.clone()).unwrap();
    assert_eq!(c.cli.unstable_flags, Some("build-std=std".to_string()));

    let mut flags = cli();
    flags.unstable_flags = Some("unstable-options".to_string());
    let c = Configuration::new("t", &ts, flags, s.clone()).unwrap();
    assert_eq!(
        c.cli.unstable_flags,
        Some("unstable-options,build-std=std".to_string())
    );

    let mut already = cli();
    already.unstable_flags = Some("build-std=std,panic_abort".to_string());
    let c = Configuration::new("t", &ts, already, s.clone()).unwrap();
    assert_eq!(c.cli.unstable_flags, Some("build-std=std,panic_abort".to_string()));

    let dy = vec![lib("mymath", false, true)];
    let c = Configuration::new("t", &dy, cli(), s).unwrap();
    assert_eq!(c.cli.unstable_flags, None);
}

#[test]
fn profile_selection() {
    let ts = vec![lib("mymath", true, false)];
    let c = Configuration::new("t", &ts, cli(), section()).unwrap();
    assert_eq!(c.profile(), "debug");
    let mut p = cli();
    p.profile = Some("bench".to_string());
    let c = Configuration::new("t", &ts, p, section()).unwrap();
    assert_eq!(c.profile(), "bench");
    let mut r = cli();
    r.profile = Some("bench".to_string());
    r.release = true;
    let c = Configuration::new("t", &ts, r, section()).unwrap();
    assert_eq!(c.profile(), "release");
}

#[test]
fn module_name_is_kept_once_read() {
    let ts = vec![lib("mymath", true, false)];
    let mut c = Configuration::new("t", &ts, cli(), section()).unwrap();
    c.remember_module_name("MyMath".to_string());
    assert_eq!(c.module_name(), Some("MyMath".to_string()));
    c.remember_module_name("Other".to_string());
    assert_eq!(c.module_name(), Some("MyMath".to_string()));
}
