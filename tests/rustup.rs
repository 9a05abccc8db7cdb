use xcframework::rustup::{targets_to_install, InstalledTarget, UnsupportedTarget};

fn known(t: &str, installed: bool) -> InstalledTarget {
    InstalledTarget { triple: t.to_string(), installed }
}

#[test]
fn only_missing_targets_are_installed() {
    let list = vec![
        known("aarch64-apple-ios", true),
        known("x86_64-apple-darwin", false),
        known("aarch64-apple-darwin", false),
    ];
    let needed = vec!["x86_64-apple-darwin".to_string(), "aarch64-apple-ios".to_string()];
    assert_eq!(targets_to_install(&needed, &list), Ok(vec!["x86_64-apple-darwin".to_string()]));
    assert_eq!(targets_to_install(&vec![], &list), Ok(vec![]));
}

#[test]
fn unknown_target_is_an_error() {
    let list = vec![known("aarch64-apple-ios", false)];
    let needed = vec!["aarch64-apple-ios".to_string(), "riscv-apple-ios".to_string()];
    assert_eq!(
        targets_to_install(&needed, &list),
        Err(UnsupportedTarget { triple: "riscv-apple-ios".to_string() })
    );
}
