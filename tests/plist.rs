use xcframework::platform::{ApplePlatform, Environment};
use xcframework::plist::InfoPlistBuilder;

#[test]
fn builder_sets_fields() {
    let b = InfoPlistBuilder::new("A", ApplePlatform::MacOS)
        .bundle_name("MyMath")
        .platform(ApplePlatform::IOS(Environment::Device));
    assert_eq!(b.bundle_name, "MyMath");
    assert_eq!(b.platform, ApplePlatform::IOS(Environment::Device));
}

#[test]
fn rendered_plist_substitutes_every_field() {
    let text = InfoPlistBuilder::new("MyMath", ApplePlatform::IOS(Environment::Simulator))
        .render("17.2", "12.0");
    assert!(text.starts_with("<?xml version=\"1.0\" encoding=\"UTF-8\"?>\n"));
    assert!(text.contains("<key>CFBundleExecutable</key>\n\t<string>MyMath</string>"));
    assert!(text.contains("<string>xcframework.cargo.MyMath</string>"));
    assert!(text.contains("<key>CFBundleName</key>\n\t<string>MyMath</string>"));
    assert!(text.contains("<array>\n\t\t<string>iphonesimulator</string>\n\t</array>"));
    assert!(text.contains("<key>DTPlatformName</key>\n\t<string>iphonesimulator</string>"));
    assert!(text.contains("<key>DTSDKName</key>\n\t<string>iphonesimulator17.2</string>"));
    assert!(text.contains("<key>MinimumOSVersion</key>\n\t<string>12.0</string>"));
    assert!(text.ends_with("</dict>\n</plist>\n"));
}

#[test]
fn rendering_is_deterministic() {
    let b = InfoPlistBuilder::new("MyMath", ApplePlatform::MacOS);
    assert_eq!(b.render("14.0", "10.12"), b.render("14.0", "10.12"));
}
