//! Apple platforms and the fixed names that each one carries.

use vstd::prelude::*;

verus! {

/// An Apple platform, the key by which build outputs are grouped.
#[derive(Clone, Copy, Debug, PartialEq, Eq, Hash, Structural)]
pub enum ApplePlatform {
    MacOS,
    IOS(Environment),
    TvOS(EnvironmentWithoutCatalyst),
    WatchOS(EnvironmentWithoutCatalyst),
}

/// Where iOS code runs.
#[derive(Clone, Copy, Debug, PartialEq, Eq, Hash, Structural)]
pub enum Environment {
    Device,
    Simulator,
    Catalyst,
}

/// Where tvOS or watchOS code runs.
#[derive(Clone, Copy, Debug, PartialEq, Eq, Hash, Structural)]
pub enum EnvironmentWithoutCatalyst {
    Device,
    Simulator,
}

/// The human-readable name of a platform.
pub open spec fn display_name_of(p: ApplePlatform) -> Seq<char> {
    match p {
        ApplePlatform::MacOS => "macOS"@,
        ApplePlatform::IOS(Environment::Device) => "iOS"@,
        ApplePlatform::IOS(Environment::Simulator) => "iOS Simulator"@,
        ApplePlatform::IOS(Environment::Catalyst) => "Mac Catalyst"@,
        ApplePlatform::TvOS(EnvironmentWithoutCatalyst::Device) => "tvOS"@,
        ApplePlatform::TvOS(EnvironmentWithoutCatalyst::Simulator) => "tvOS Simulator"@,
        ApplePlatform::WatchOS(EnvironmentWithoutCatalyst::Device) => "watchOS"@,
        ApplePlatform::WatchOS(EnvironmentWithoutCatalyst::Simulator) => "watchOS Simulator"@,
    }
}

/// The SDK name of a platform, as the toolchain and `Info.plist` spell it.
pub open spec fn sdk_name_of(p: ApplePlatform) -> Seq<char> {
    match p {
        ApplePlatform::MacOS => "macosx"@,
        ApplePlatform::IOS(Environment::Device) => "iphoneos"@,
        ApplePlatform::IOS(Environment::Simulator) => "iphonesimulator"@,
        ApplePlatform::IOS(Environment::Catalyst) => "maccatalyst"@,
        ApplePlatform::TvOS(EnvironmentWithoutCatalyst::Device) => "appletvos"@,
        ApplePlatform::TvOS(EnvironmentWithoutCatalyst::Simulator) => "appletvsimulator"@,
        ApplePlatform::WatchOS(EnvironmentWithoutCatalyst::Device) => "watchos"@,
        ApplePlatform::WatchOS(EnvironmentWithoutCatalyst::Simulator) => "watchsimulator"@,
    }
}

/// The platform name that the linker expects.
pub open spec fn linker_name_of(p: ApplePlatform) -> Seq<char> {
    match p {
        ApplePlatform::MacOS => "macos"@,
        ApplePlatform::IOS(Environment::Device) => "ios"@,
        ApplePlatform::IOS(Environment::Simulator) => "ios-simulator"@,
        ApplePlatform::IOS(Environment::Catalyst) => "mac-catalyst"@,
        ApplePlatform::TvOS(EnvironmentWithoutCatalyst::Device) => "tvos"@,
        ApplePlatform::TvOS(EnvironmentWithoutCatalyst::Simulator) => "tvos-simulator"@,
        ApplePlatform::WatchOS(EnvironmentWithoutCatalyst::Device) => "watchos"@,
        ApplePlatform::WatchOS(EnvironmentWithoutCatalyst::Simulator) => "watchos-simulator"@,
    }
}

/// The suffix used in library names built for a platform.
pub open spec fn library_suffix_of(p: ApplePlatform) -> Seq<char> {
    match p {
        ApplePlatform::MacOS => "osx"@,
        ApplePlatform::IOS(Environment::Device) => "ios"@,
        ApplePlatform::IOS(Environment::Simulator) => "iossim"@,
        ApplePlatform::IOS(Environment::Catalyst) => "osx"@,
        ApplePlatform::TvOS(EnvironmentWithoutCatalyst::Device) => "tvos"@,
        ApplePlatform::TvOS(EnvironmentWithoutCatalyst::Simulator) => "tvossim"@,
        ApplePlatform::WatchOS(EnvironmentWithoutCatalyst::Device) => "watchos"@,
        ApplePlatform::WatchOS(EnvironmentWithoutCatalyst::Simulator) => "watchossim"@,
    }
}

/// The name of the directory that holds a platform's intermediate outputs.
pub open spec fn dir_name_of(p: ApplePlatform) -> Seq<char> {
    match p {
        ApplePlatform::MacOS => "MacOS"@,
        ApplePlatform::IOS(Environment::Device) => "IOS(Device)"@,
        ApplePlatform::IOS(Environment::Simulator) => "IOS(Simulator)"@,
        ApplePlatform::IOS(Environment::Catalyst) => "IOS(Catalyst)"@,
        ApplePlatform::TvOS(EnvironmentWithoutCatalyst::Device) => "TvOS(Device)"@,
        ApplePlatform::TvOS(EnvironmentWithoutCatalyst::Simulator) => "TvOS(Simulator)"@,
        ApplePlatform::WatchOS(EnvironmentWithoutCatalyst::Device) => "WatchOS(Device)"@,
        ApplePlatform::WatchOS(EnvironmentWithoutCatalyst::Simulator) => "WatchOS(Simulator)"@,
    }
}

/// The minimum OS version assumed when the environment names none.
pub open spec fn default_min_os_of(p: ApplePlatform) -> Seq<char> {
    match p {
        ApplePlatform::MacOS => "10.12"@,
        ApplePlatform::IOS(_) => "10.0"@,
        ApplePlatform::TvOS(_) => "10.0"@,
        ApplePlatform::WatchOS(_) => "5.0"@,
    }
}

/// The environment variable that overrides a platform's minimum OS version.
pub open spec fn deployment_var_of(p: ApplePlatform) -> Seq<char> {
    match p {
        ApplePlatform::MacOS => "MACOSX_DEPLOYMENT_TARGET"@,
        ApplePlatform::IOS(_) => "IPHONEOS_DEPLOYMENT_TARGET"@,
        ApplePlatform::TvOS(_) => "TVOS_DEPLOYMENT_TARGET"@,
        ApplePlatform::WatchOS(_) => "WATCHOS_DEPLOYMENT_TARGET"@,
    }
}

/// The compiler target triples that make up a platform by default.
pub open spec fn rustup_targets_of(p: ApplePlatform) -> Seq<Seq<char>> {
    match p {
        ApplePlatform::MacOS => seq!["x86_64-apple-darwin"@, "aarch64-apple-darwin"@],
        ApplePlatform::IOS(Environment::Device) => seq!["aarch64-apple-ios"@],
        ApplePlatform::IOS(Environment::Simulator) => seq![
            "x86_64-apple-ios"@,
            "aarch64-apple-ios-sim"@,
        ],
        ApplePlatform::IOS(Environment::Catalyst) => seq![
            "x86_64-apple-ios-macabi"@,
            "aarch64-apple-ios-macabi"@,
        ],
        ApplePlatform::TvOS(EnvironmentWithoutCatalyst::Device) => seq!["aarch64-apple-tvos"@],
        ApplePlatform::TvOS(EnvironmentWithoutCatalyst::Simulator) => seq![
            "x86_64-apple-tvos"@,
            "aarch64-apple-tvos-sim"@,
        ],
        ApplePlatform::WatchOS(EnvironmentWithoutCatalyst::Device) => seq![
            "armv7k-apple-watchos"@,
            "arm64_32-apple-watchos"@,
        ],
        ApplePlatform::WatchOS(EnvironmentWithoutCatalyst::Simulator) => seq![
            "x86_64-apple-watchos-sim"@,
            "aarch64-apple-watchos-sim"@,
        ],
    }
}

impl ApplePlatform {
    pub fn platform_display_name(&self) -> (r: &'static str)
        ensures
            r@ == display_name_of(*self),
    {
        match self {
            ApplePlatform::MacOS => "macOS",
            ApplePlatform::IOS(Environment::Device) => "iOS",
            ApplePlatform::IOS(Environment::Simulator) => "iOS Simulator",
            ApplePlatform::IOS(Environment::Catalyst) => "Mac Catalyst",
            ApplePlatform::TvOS(EnvironmentWithoutCatalyst::Device) => "tvOS",
            ApplePlatform::TvOS(EnvironmentWithoutCatalyst::Simulator) => "tvOS Simulator",
            ApplePlatform::WatchOS(EnvironmentWithoutCatalyst::Device) => "watchOS",
            ApplePlatform::WatchOS(EnvironmentWithoutCatalyst::Simulator) => "watchOS Simulator",
        }
    }

    pub fn platform_name(&self) -> (r: &'static str)
        ensures
            r@ == sdk_name_of(*self),
    {
        match self {
            ApplePlatform::MacOS => "macosx",
            ApplePlatform::IOS(Environment::Device) => "iphoneos",
            ApplePlatform::IOS(Environment::Simulator) => "iphonesimulator",
            ApplePlatform::IOS(Environment::Catalyst) => "maccatalyst",
            ApplePlatform::TvOS(EnvironmentWithoutCatalyst::Device) => "appletvos",
            ApplePlatform::TvOS(EnvironmentWithoutCatalyst::Simulator) => "appletvsimulator",
            ApplePlatform::WatchOS(EnvironmentWithoutCatalyst::Device) => "watchos",
            ApplePlatform::WatchOS(EnvironmentWithoutCatalyst::Simulator) => "watchsimulator",
        }
    }

    pub fn linker_platform_name(&self) -> (r: &'static str)
        ensures
            r@ == linker_name_of(*self),
    {
        match self {
            ApplePlatform::MacOS => "macos",
            ApplePlatform::IOS(Environment::Device) => "ios",
            ApplePlatform::IOS(Environment::Simulator) => "ios-simulator",
            ApplePlatform::IOS(Environment::Catalyst) => "mac-catalyst",
            ApplePlatform::TvOS(EnvironmentWithoutCatalyst::Device) => "tvos",
            ApplePlatform::TvOS(EnvironmentWithoutCatalyst::Simulator) => "tvos-simulator",
            ApplePlatform::WatchOS(EnvironmentWithoutCatalyst::Device) => "watchos",
            ApplePlatform::WatchOS(EnvironmentWithoutCatalyst::Simulator) => "watchos-simulator",
        }
    }

    pub fn library_name_suffix(&self) -> (r: &'static str)
        ensures
            r@ == library_suffix_of(*self),
    {
        match self {
            ApplePlatform::MacOS => "osx",
            ApplePlatform::IOS(Environment::Device) => "ios",
            ApplePlatform::IOS(Environment::Simulator) => "iossim",
            ApplePlatform::IOS(Environment::Catalyst) => "osx",
            ApplePlatform::TvOS(EnvironmentWithoutCatalyst::Device) => "tvos",
            ApplePlatform::TvOS(EnvironmentWithoutCatalyst::Simulator) => "tvossim",
            ApplePlatform::WatchOS(EnvironmentWithoutCatalyst::Device) => "watchos",
            ApplePlatform::WatchOS(EnvironmentWithoutCatalyst::Simulator) => "watchossim",
        }
    }

    /// The name of the directory under which this platform's merged library
    /// and framework are written.
    pub fn dir_name(&self) -> (r: &'static str)
        ensures
            r@ == dir_name_of(*self),
    {
        match self {
            ApplePlatform::MacOS => "MacOS",
            ApplePlatform::IOS(Environment::Device) => "IOS(Device)",
            ApplePlatform::IOS(Environment::Simulator) => "IOS(Simulator)",
            ApplePlatform::IOS(Environment::Catalyst) => "IOS(Catalyst)",
            ApplePlatform::TvOS(EnvironmentWithoutCatalyst::Device) => "TvOS(Device)",
            ApplePlatform::TvOS(EnvironmentWithoutCatalyst::Simulator) => "TvOS(Simulator)",
            ApplePlatform::WatchOS(EnvironmentWithoutCatalyst::Device) => "WatchOS(Device)",
            ApplePlatform::WatchOS(EnvironmentWithoutCatalyst::Simulator) => "WatchOS(Simulator)",
        }
    }

    /// The environment variable that names this platform's minimum OS version.
    pub fn deployment_target_var(&self) -> (r: &'static str)
        ensures
            r@ == deployment_var_of(*self),
    {
        match self {
            ApplePlatform::MacOS => "MACOSX_DEPLOYMENT_TARGET",
            ApplePlatform::IOS(_) => "IPHONEOS_DEPLOYMENT_TARGET",
            ApplePlatform::TvOS(_) => "TVOS_DEPLOYMENT_TARGET",
            ApplePlatform::WatchOS(_) => "WATCHOS_DEPLOYMENT_TARGET",
        }
    }

    /// The minimum OS version: the value of the platform's environment
    /// variable where it is set, else the platform's default.
    pub fn min_os_version(&self, from_env: Option<String>) -> (r: String)
        ensures
            r@ == match from_env {
                Some(v) => v@,
                None => default_min_os_of(*self),
            },
    {
        match from_env {
            Some(v) => v,
            None => match self {
                ApplePlatform::MacOS => String::from_str("10.12"),
                ApplePlatform::IOS(_) => String::from_str("10.0"),
                ApplePlatform::TvOS(_) => String::from_str("10.0"),
                ApplePlatform::WatchOS(_) => String::from_str("5.0"),
            },
        }
    }

    pub fn rustup_targets(&self) -> (r: Vec<&'static str>)
        ensures
            r@.len() == rustup_targets_of(*self).len(),
            forall|i: int| 0 <= i < r@.len() ==> #[trigger] r@[i]@ == rustup_targets_of(*self)[i],
    {
        match self {
            ApplePlatform::MacOS => vec!["x86_64-apple-darwin", "aarch64-apple-darwin"],
            ApplePlatform::IOS(Environment::Device) => vec!["aarch64-apple-ios"],
            ApplePlatform::IOS(Environment::Simulator) => vec![
                "x86_64-apple-ios",
                "aarch64-apple-ios-sim",
            ],
            ApplePlatform::IOS(Environment::Catalyst) => vec![
                "x86_64-apple-ios-macabi",
                "aarch64-apple-ios-macabi",
            ],
            ApplePlatform::TvOS(EnvironmentWithoutCatalyst::Device) => vec!["aarch64-apple-tvos"],
            ApplePlatform::TvOS(EnvironmentWithoutCatalyst::Simulator) => vec![
                "x86_64-apple-tvos",
                "aarch64-apple-tvos-sim",
            ],
            ApplePlatform::WatchOS(EnvironmentWithoutCatalyst::Device) => vec![
                "armv7k-apple-watchos",
                "arm64_32-apple-watchos",
            ],
            ApplePlatform::WatchOS(EnvironmentWithoutCatalyst::Simulator) => vec![
                "x86_64-apple-watchos-sim",
                "aarch64-apple-watchos-sim",
            ],
        }
    }
}

} // verus!
