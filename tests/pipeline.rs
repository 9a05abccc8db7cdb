use xcframework::action::Action;
use xcframework::builder::{
    cargo_build_args, lib_file_name, lib_path_for_target, platform_library_paths,
    underscore_dashes,
};
use xcframework::config::LibType;
use xcframework::configuration::{Cli, Configuration, PackageTarget, XCFrameworkConfiguration};
use xcframework::framework::{wrap_as_framework, FrameworkError};
use xcframework::lipo::lipo_create_platform_libraries;
use xcframework::modulemap::ModuleMapError;
use xcframework::pipeline::{build, PipelineError, PlatformVersions};
use xcframework::platform::{ApplePlatform, Environment};
use xcframework::targets::Target;
use xcframework::xcframework::{compress_xcframework, create_xcframework, XcframeworkError};

fn s(x: &str) -> String {
    x.to_string()
}

fn strings(xs: &[&str]) -> Vec<String> {
    xs.iter().map(|x| x.to_string()).collect()
}

fn run(program: &str, args: &[&str]) -> Action {
    Action::Run { program: s(program), args: strings(args) }
}

fn cli() -> Cli {
    Cli {
        lib_type: None,
        quiet: false,
        package: None,
        verbose: 0,
        release: false,
        profile: None,
        features: vec![],
        all_features: false,
        no_default_features: false,
        manifest_path: None,
        target_dir: None,
        unstable_flags: None,
    }
}

fn mac_section(zip: bool) -> XCFrameworkConfiguration {
    XCFrameworkConfiguration {
        include_dir: s("include"),
        lib_type: None,
        zip,
        build_std: false,
        macOS: true,
        macOS_targets: Target::default_macos(),
        simulators: false,
        iOS: false,
        iOS_targets: Target::default_ios(),
        iOS_simulator_targets: Target::default_ios_sim(),
    }
}

fn configuration(kind: LibType, zip: bool) -> Configuration {
    let ts = vec![PackageTarget {
        name: s("mymath-lib"),
        is_staticlib: kind == LibType::StaticLib,
        is_cdylib: kind == LibType::CDyLib,
    }];
    let mut c = Configuration::new("target", &ts, cli(), mac_section(zip)).unwrap();
    c.remember_module_name(s("MyMath"));
    c
}

fn include_files() -> Vec<String> {
    strings(&["include/mymath.h", "include/module.modulemap", "include/README.md"])
}

fn mac_versions() -> Vec<PlatformVersions> {
    vec![PlatformVersions {
        platform: ApplePlatform::MacOS,
        sdk_version: s("14.2"),
        min_os_version: s("10.12"),
    }]
}

#[test]
fn library_file_names_and_paths() {
    assert_eq!(underscore_dashes("my-math-lib"), "my_math_lib");
    assert_eq!(lib_file_name("my-math", LibType::StaticLib), "libmy_math.a");
    assert_eq!(lib_file_name("mymath", LibType::CDyLib), "libmymath.dylib");
    assert_eq!(
        lib_path_for_target("target", "aarch64-apple-darwin", "debug", "libmymath.a"),
        "target/aarch64-apple-darwin/debug/libmymath.a"
    );
}

#[test]
fn platform_groups_follow_the_section() {
    let ts = vec![PackageTarget { name: s("m"), is_staticlib: true, is_cdylib: false }];
    let mut sec = mac_section(true);
    sec.iOS = true;
    sec.simulators = true;
    let c = Configuration::new("t", &ts, cli(), sec).unwrap();
    let g = platform_library_paths(&c);
    assert_eq!(g.len(), 3);
    assert_eq!(g[0].0, ApplePlatform::MacOS);
    assert_eq!(
        g[0].1,
        strings(&["t/x86_64-apple-darwin/debug/libm.a", "t/aarch64-apple-darwin/debug/libm.a"])
    );
    assert_eq!(g[1].0, ApplePlatform::IOS(Environment::Device));
    assert_eq!(g[1].1, strings(&["t/aarch64-apple-ios/debug/libm.a"]));
    assert_eq!(g[2].0, ApplePlatform::IOS(Environment::Simulator));
    assert_eq!(
        g[2].1,
        strings(&["t/aarch64-apple-ios-sim/debug/libm.a", "t/x86_64-apple-ios/debug/libm.a"])
    );
}

#[test]
fn cargo_arguments_list_every_option_and_target() {
    let ts = vec![PackageTarget { name: s("m"), is_staticlib: true, is_cdylib: false }];
    let mut o = cli();
    o.quiet = true;
    o.package = Some(s("mymath"));
    o.verbose = 2;
    o.release = true;
    o.features = strings(&["a", "b"]);
    o.all_features = true;
    o.manifest_path = Some(s("m/Cargo.toml"));
    o.unstable_flags = Some(s("build-std=std"));
    o.target_dir = Some(s("out"));
    let c = Configuration::new("target", &ts, o, mac_section(true)).unwrap();
    assert_eq!(
        cargo_build_args(&c),
        strings(&[
            "build",
            "--color=always",
            "--target-dir=out",
            "--manifest-path=m/Cargo.toml",
            "--quiet",
            "--package=mymath",
            "-v",
            "-v",
            "-Z=build-std=std",
            "--release",
            "--features=a,b",
            "--all-features",
            "--target=x86_64-apple-darwin",
            "--target=aarch64-apple-darwin",
        ])
    );
    let plain = Configuration::new("target", &ts, cli(), mac_section(true)).unwrap();
    assert_eq!(
        cargo_build_args(&plain),
        strings(&[
            "build",
            "--color=always",
            "--target=x86_64-apple-darwin",
            "--target=aarch64-apple-darwin",
        ])
    );
}

#[test]
fn single_library_is_used_without_merging() {
    let groups = vec![(
        ApplePlatform::IOS(Environment::Device),
        strings(&["t/aarch64-apple-ios/debug/libm.a"]),
    )];
    let plan = lipo_create_platform_libraries(&groups, "libm.a", "b/libs");
    assert_eq!(plan.actions, vec![Action::CreateDir(s("b/libs"))]);
    assert_eq!(
        plan.libraries,
        vec![(ApplePlatform::IOS(Environment::Device), s("t/aarch64-apple-ios/debug/libm.a"))]
    );
}

#[test]
fn several_libraries_are_merged_once() {
    let groups = vec![
        (ApplePlatform::MacOS, strings(&["x/libm.a", "y/libm.a"])),
        (ApplePlatform::IOS(Environment::Device), strings(&["z/libm.a"])),
    ];
    let plan = lipo_create_platform_libraries(&groups, "libm.a", "b/libs");
    assert_eq!(
        plan.actions,
        vec![
            Action::CreateDir(s("b/libs")),
            Action::CreateDir(s("b/libs/MacOS")),
            Action::Remove(s("b/libs/MacOS/libm.a")),
            run("lipo", &["-create", "x/libm.a", "y/libm.a", "-output", "b/libs/MacOS/libm.a"]),
        ]
    );
    let lipo_runs = plan
        .actions
        .iter()
        .filter(|a| matches!(a, Action::Run { program, .. } if program == "lipo"))
        .count();
    assert_eq!(lipo_runs, 1);
    assert_eq!(
        plan.libraries,
        vec![
            (ApplePlatform::MacOS, s("b/libs/MacOS/libm.a")),
            (ApplePlatform::IOS(Environment::Device), s("z/libm.a")),
        ]
    );
}

fn install_name_runs(actions: &[Action]) -> usize {
    actions
        .iter()
        .filter(|a| matches!(a, Action::Run { program, .. } if program == "install_name_tool"))
        .count()
}

#[test]
fn dynamic_framework_rewrites_install_name_once() {
    let (actions, path) = wrap_as_framework(
        ApplePlatform::MacOS,
        LibType::CDyLib,
        "b/libs/MacOS/libm.dylib",
        &strings(&["include/m.h", "include/sub/n.h"]),
        "include/module.modulemap",
        "MyMath",
        "target/frameworks",
        "14.2",
        "10.12",
    )
    .unwrap();
    let fw = "target/frameworks/MacOS/MyMath.framework";
    assert_eq!(path, fw);
    assert_eq!(install_name_runs(&actions), 1);
    assert!(actions.contains(&run(
        "install_name_tool",
        &["-id", "@rpath/MyMath.framework/MyMath", "target/frameworks/MacOS/MyMath.framework/MyMath"]
    )));
    assert_eq!(actions[0], Action::Remove(s(fw)));
    assert_eq!(actions[1], Action::CreateDir(s(fw)));
    assert!(matches!(&actions[2], Action::WriteFile { path, .. } if path == "target/frameworks/MacOS/MyMath.framework/Info.plist"));
    assert_eq!(
        actions[3],
        run(
            "plutil",
            &[
                "-convert",
                "binary1",
                "-o",
                "target/frameworks/MacOS/MyMath.framework/Info.plist",
                "target/frameworks/MacOS/MyMath.framework/Info.plist"
            ]
        )
    );
    assert_eq!(
        actions[4],
        Action::Copy {
            from: s("b/libs/MacOS/libm.dylib"),
            to: s("target/frameworks/MacOS/MyMath.framework/MyMath")
        }
    );
    assert!(actions.contains(&Action::Copy {
        from: s("include/sub/n.h"),
        to: s("target/frameworks/MacOS/MyMath.framework/Headers/n.h")
    }));
    assert_eq!(
        actions.last().unwrap(),
        &Action::Copy {
            from: s("include/module.modulemap"),
            to: s("target/frameworks/MacOS/MyMath.framework/Modules/module.modulemap")
        }
    );
}

#[test]
fn static_framework_never_rewrites_install_name() {
    let (actions, _) = wrap_as_framework(
        ApplePlatform::IOS(Environment::Simulator),
        LibType::StaticLib,
        "lib.a",
        &strings(&["include/m.h"]),
        "include/m.modulemap",
        "MyMath",
        "fw",
        "17.0",
        "10.0",
    )
    .unwrap();
    assert_eq!(install_name_runs(&actions), 0);
    assert_eq!(actions.len(), 9);
    assert!(actions.contains(&Action::CreateDir(s("fw/IOS(Simulator)/MyMath.framework/Headers"))));
    assert!(actions.contains(&Action::CreateDir(s("fw/IOS(Simulator)/MyMath.framework/Modules"))));
}

#[test]
fn header_without_file_name_is_refused() {
    let r = wrap_as_framework(
        ApplePlatform::MacOS,
        LibType::StaticLib,
        "lib.a",
        &strings(&["include/m.h", "include/.."]),
        "m.modulemap",
        "M",
        "fw",
        "1",
        "1",
    );
    assert_eq!(r.unwrap_err(), FrameworkError::HeaderWithoutFileName(s("include/..")));
}

#[test]
fn xcframework_assembly_lists_every_framework() {
    let (actions, path) =
        create_xcframework(&strings(&["fw/MacOS/M.framework", "fw/IOS(Device)/M.framework"]), "M", "b");
    assert_eq!(path, "b/M.xcframework");
    assert_eq!(
        actions,
        vec![
            Action::Remove(s("b/M.xcframework")),
            run(
                "xcodebuild",
                &[
                    "-create-xcframework",
                    "-framework",
                    "fw/MacOS/M.framework",
                    "-framework",
                    "fw/IOS(Device)/M.framework",
                    "-output",
                    "b/M.xcframework"
                ]
            ),
        ]
    );
}

#[test]
fn compression_names_the_archive() {
    let (actions, dest) =
        compress_xcframework(Some(s("M.xcframework")), "b/M.xcframework", None, "target").unwrap();
    assert_eq!(dest, "target/M.xcframework.zip");
    assert_eq!(
        actions,
        vec![
            Action::Remove(s("target/M.xcframework.zip")),
            Action::Zip { source: s("b/M.xcframework"), dest: s("target/M.xcframework.zip") },
            Action::Remove(s("b/M.xcframework")),
        ]
    );
    let (_, dest) =
        compress_xcframework(Some(s("M.xcframework")), "b/M.xcframework", Some(s("v1")), "out").unwrap();
    assert_eq!(dest, "out/v1_M.xcframework.zip");
    let (_, dest) = compress_xcframework(None, "b/N.xcframework", None, "out").unwrap();
    assert_eq!(dest, "out/N.xcframework.zip");
    assert_eq!(
        compress_xcframework(None, "b/..", None, "out").unwrap_err(),
        XcframeworkError::MissingName
    );
}

#[test]
fn end_to_end_static_macos_with_zip() {
    let c = configuration(LibType::StaticLib, true);
    let plan = build(&c, &include_files(), &mac_versions()).unwrap();
    assert_eq!(plan.produced.module_name, "MyMath");
    assert_eq!(plan.produced.path, "target/MyMath.xcframework.zip");
    assert!(plan.produced.is_zipped);
    let a = &plan.actions;
    assert_eq!(a[0], Action::Remove(s("target/xcframework")));
    assert!(matches!(&a[1], Action::Run { program, args } if program == "cargo" && args.contains(&s("--target=aarch64-apple-darwin"))));
    assert!(a.contains(&run(
        "lipo",
        &[
            "-create",
            "target/x86_64-apple-darwin/debug/libmymath_lib.a",
            "target/aarch64-apple-darwin/debug/libmymath_lib.a",
            "-output",
            "target/xcframework/libs/MacOS/libmymath_lib.a"
        ]
    )));
    let fw = "target/frameworks/MacOS/MyMath.framework";
    assert!(a.contains(&Action::Copy {
        from: s("target/xcframework/libs/MacOS/libmymath_lib.a"),
        to: format!("{fw}/MyMath")
    }));
    assert!(a.iter().any(|x| matches!(x, Action::WriteFile { path, .. } if *path == format!("{fw}/Info.plist"))));
    assert!(a.contains(&Action::CreateDir(format!("{fw}/Headers"))));
    assert!(a.contains(&Action::Copy { from: s("include/mymath.h"), to: format!("{fw}/Headers/mymath.h") }));
    assert!(a.contains(&Action::Copy {
        from: s("include/module.modulemap"),
        to: format!("{fw}/Modules/module.modulemap")
    }));
    assert!(a.contains(&run(
        "xcodebuild",
        &["-create-xcframework", "-framework", fw, "-output", "target/xcframework/MyMath.xcframework"]
    )));
    assert!(a.contains(&Action::Zip {
        source: s("target/xcframework/MyMath.xcframework"),
        dest: s("target/MyMath.xcframework.zip")
    }));
    let zip_at = a.iter().position(|x| matches!(x, Action::Zip { .. })).unwrap();
    assert_eq!(a[zip_at + 1], Action::Remove(s("target/xcframework/MyMath.xcframework")));
    assert_eq!(install_name_runs(a), 0);
    assert_eq!(a.last().unwrap(), &Action::Remove(s("target/xcframework")));
}

#[test]
fn end_to_end_dynamic_without_zip_moves_the_bundle() {
    let c = configuration(LibType::CDyLib, false);
    let plan = build(&c, &include_files(), &mac_versions()).unwrap();
    assert_eq!(plan.produced.path, "target/MyMath.xcframework");
    assert!(!plan.produced.is_zipped);
    assert_eq!(install_name_runs(&plan.actions), 1);
    let n = plan.actions.len();
    assert_eq!(plan.actions[n - 3], Action::Remove(s("target/MyMath.xcframework")));
    assert_eq!(
        plan.actions[n - 2],
        Action::Move { from: s("target/xcframework/MyMath.xcframework"), to: s("target/MyMath.xcframework") }
    );
}

#[test]
fn repeated_runs_plan_the_same_layout() {
    let c = configuration(LibType::StaticLib, true);
    let first = build(&c, &include_files(), &mac_versions()).unwrap();
    let second = build(&c, &include_files(), &mac_versions()).unwrap();
    assert_eq!(first.actions, second.actions);
    assert_eq!(first.produced, second.produced);
}

#[test]
fn run_needs_module_name_module_map_and_versions() {
    let ts = vec![PackageTarget { name: s("m"), is_staticlib: true, is_cdylib: false }];
    let c = Configuration::new("target", &ts, cli(), mac_section(true)).unwrap();
    assert_eq!(
        build(&c, &include_files(), &mac_versions()).unwrap_err(),
        PipelineError::NoModuleName
    );
    let c = configuration(LibType::StaticLib, true);
    assert_eq!(
        build(&c, &strings(&["include/m.h"]), &mac_versions()).unwrap_err(),
        PipelineError::ModuleMap(ModuleMapError::NotFound)
    );
    assert_eq!(
        build(&c, &strings(&["a.modulemap", "b.modulemap"]), &mac_versions()).unwrap_err(),
        PipelineError::ModuleMap(ModuleMapError::Ambiguous(2))
    );
    assert_eq!(
        build(&c, &include_files(), &vec![]).unwrap_err(),
        PipelineError::MissingVersions(ApplePlatform::MacOS)
    );
}
