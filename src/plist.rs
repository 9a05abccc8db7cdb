//! The `Info.plist` of a framework bundle, written from a fixed template.

use vstd::prelude::*;
use crate::platform::{ApplePlatform, sdk_name_of};

verus! {

/// The settings that an `Info.plist` is written from.
#[derive(Debug, Clone)]
pub struct InfoPlistBuilder {
    pub bundle_name: String,
    pub platform: ApplePlatform,
}

/// The `Info.plist` text of bundle `b` for an SDK named `sdk` at version
/// `v`, with minimum OS version `min_os`. The bundle name is the executable
/// and bundle name and ends the identifier `xcframework.cargo.<b>`; the SDK
/// name is the supported platform and the platform name, and with the
/// version appended the SDK name.
pub open spec fn plist_text(b: Seq<char>, sdk: Seq<char>, v: Seq<char>, min_os: Seq<char>) -> Seq<
    char,
> {
    "<?xml version=\"1.0\" encoding=\"UTF-8\"?>\n<!DOCTYPE plist PUBLIC \"-//Apple//DTD PLIST 1.0//EN\" \"http://www.apple.com/DTDs/PropertyList-1.0.dtd\">\n<plist version=\"1.0\">\n<dict>\n\t<key>CFBundleExecutable</key>\n\t<string>"@
        + b + "</string>\n\t<key>CFBundleIdentifier</key>\n\t<string>xcframework.cargo."@ + b
        + "</string>\n\t<key>CFBundleInfoDictionaryVersion</key>\n\t<string>6.0</string>\n\t<key>CFBundleName</key>\n\t<string>"@
        + b
        + "</string>\n\t<key>CFBundlePackageType</key>\n\t<string>APPL</string>\n\t<key>CFBundleShortVersionString</key>\n\t<string>1.0</string>\n\t<key>CFBundleSupportedPlatforms</key>\n\t<array>\n\t\t<string>"@
        + sdk
        + "</string>\n\t</array>\n\t<key>CFBundleVersion</key>\n\t<string>1</string>\n\t<key>DTPlatformName</key>\n\t<string>"@
        + sdk + "</string>\n\t<key>DTSDKName</key>\n\t<string>"@ + sdk + v
        + "</string>\n\t<key>MinimumOSVersion</key>\n\t<string>"@ + min_os
        + "</string>\n</dict>\n</plist>\n"@
}

impl InfoPlistBuilder {
    pub fn new(bundle_name: &str, platform: ApplePlatform) -> (r: InfoPlistBuilder)
        ensures
            r.bundle_name@ == bundle_name@,
            r.platform == platform,
    {
        InfoPlistBuilder { bundle_name: String::from_str(bundle_name), platform }
    }

    pub fn bundle_name(self, bundle_name: &str) -> (r: InfoPlistBuilder)
        ensures
            r.bundle_name@ == bundle_name@,
            r.platform == self.platform,
    {
        InfoPlistBuilder { bundle_name: String::from_str(bundle_name), platform: self.platform }
    }

    pub fn platform(self, platform: ApplePlatform) -> (r: InfoPlistBuilder)
        ensures
            r.bundle_name@ == self.bundle_name@,
            r.platform == platform,
    {
        InfoPlistBuilder { bundle_name: self.bundle_name, platform }
    }

    /// The `Info.plist` text for an SDK at `sdk_version` and the minimum OS
    /// version `min_os_version`.
    pub fn render(&self, sdk_version: &str, min_os_version: &str) -> (r: String)
        ensures
            r@ == plist_text(
                self.bundle_name@,
                sdk_name_of(self.platform),
                sdk_version@,
                min_os_version@,
            ),
    {
        let b = self.bundle_name.as_str();
        let sdk = self.platform.platform_name();
        let mut t = String::from_str(
            "<?xml version=\"1.0\" encoding=\"UTF-8\"?>\n<!DOCTYPE plist PUBLIC \"-//Apple//DTD PLIST 1.0//EN\" \"http://www.apple.com/DTDs/PropertyList-1.0.dtd\">\n<plist version=\"1.0\">\n<dict>\n\t<key>CFBundleExecutable</key>\n\t<string>",
        );
        t.append(b);
        t.append("</string>\n\t<key>CFBundleIdentifier</key>\n\t<string>xcframework.cargo.");
        t.append(b);
        t.append(
            "</string>\n\t<key>CFBundleInfoDictionaryVersion</key>\n\t<string>6.0</string>\n\t<key>CFBundleName</key>\n\t<string>",
        );
        t.append(b);
        t.append(
            "</string>\n\t<key>CFBundlePackageType</key>\n\t<string>APPL</string>\n\t<key>CFBundleShortVersionString</key>\n\t<string>1.0</string>\n\t<key>CFBundleSupportedPlatforms</key>\n\t<array>\n\t\t<string>",
        );
        t.append(sdk);
        t.append(
            "</string>\n\t</array>\n\t<key>CFBundleVersion</key>\n\t<string>1</string>\n\t<key>DTPlatformName</key>\n\t<string>",
        );
        t.append(sdk);
        t.append("</string>\n\t<key>DTSDKName</key>\n\t<string>");
        t.append(sdk);
        t.append(sdk_version);
        t.append("</string>\n\t<key>MinimumOSVersion</key>\n\t<string>");
        t.append(min_os_version);
        t.append("</string>\n</dict>\n</plist>\n");
        t
    }
}

} // verus!
