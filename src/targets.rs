//! Compiler target triples: the fixed set that the manifest section names,
//! and the triple-and-platform pairs that a build works through.

use vstd::prelude::*;
use crate::platform::ApplePlatform;
use crate::text::{concat, str_eq};

verus! {

/// A target triple that the manifest section can name.
#[allow(non_camel_case_types)]
#[derive(Debug, Clone, Copy, PartialEq, Eq, Structural)]
pub enum Target {
    iOS_Device,
    iOS_aarch_Simulator,
    iOS_x86_Simulator,
    macOS_aarch,
    macOS_x86,
}

/// A target triple to build for, with the platform its library belongs to.
#[derive(Debug, Clone, PartialEq, Eq)]
pub struct BuildTarget {
    pub triple: String,
    pub platform: ApplePlatform,
}

/// The triple that a manifest target stands for.
pub open spec fn triple_of(t: Target) -> Seq<char> {
    match t {
        Target::iOS_Device => "aarch64-apple-ios"@,
        Target::iOS_aarch_Simulator => "aarch64-apple-ios-sim"@,
        Target::iOS_x86_Simulator => "x86_64-apple-ios"@,
        Target::macOS_aarch => "aarch64-apple-darwin"@,
        Target::macOS_x86 => "x86_64-apple-darwin"@,
    }
}

/// The manifest target whose triple is `s`, if any.
pub open spec fn target_named(s: Seq<char>) -> Option<Target> {
    if s == "aarch64-apple-ios-sim"@ {
        Some(Target::iOS_aarch_Simulator)
    } else if s == "x86_64-apple-ios"@ {
        Some(Target::iOS_x86_Simulator)
    } else if s == "aarch64-apple-ios"@ {
        Some(Target::iOS_Device)
    } else if s == "x86_64-apple-darwin"@ {
        Some(Target::macOS_x86)
    } else if s == "aarch64-apple-darwin"@ {
        Some(Target::macOS_aarch)
    } else {
        None
    }
}

impl Target {
    pub fn default_macos() -> (r: Vec<Target>)
        ensures
            r@ == seq![Target::macOS_x86, Target::macOS_aarch],
    {
        vec![Target::macOS_x86, Target::macOS_aarch]
    }

    pub fn default_ios() -> (r: Vec<Target>)
        ensures
            r@ == seq![Target::iOS_Device],
    {
        vec![Target::iOS_Device]
    }

    pub fn default_ios_sim() -> (r: Vec<Target>)
        ensures
            r@ == seq![Target::iOS_aarch_Simulator, Target::iOS_x86_Simulator],
    {
        vec![Target::iOS_aarch_Simulator, Target::iOS_x86_Simulator]
    }

    pub fn as_str(&self) -> (r: &'static str)
        ensures
            r@ == triple_of(*self),
    {
        match self {
            Target::iOS_Device => "aarch64-apple-ios",
            Target::iOS_aarch_Simulator => "aarch64-apple-ios-sim",
            Target::iOS_x86_Simulator => "x86_64-apple-ios",
            Target::macOS_aarch => "aarch64-apple-darwin",
            Target::macOS_x86 => "x86_64-apple-darwin",
        }
    }

    /// The target with triple `s`; any other text is refused with a message
    /// that names it.
    pub fn from_triple(s: &str) -> (r: Result<Target, String>)
        ensures
            match target_named(s@) {
                Some(t) => r == Ok::<Target, String>(t),
                None => r matches Err(m) && m@ == "Unknown target: "@ + s@,
            },
    {
        if str_eq(s, "aarch64-apple-ios-sim") {
            Ok(Target::iOS_aarch_Simulator)
        } else if str_eq(s, "x86_64-apple-ios") {
            Ok(Target::iOS_x86_Simulator)
        } else if str_eq(s, "aarch64-apple-ios") {
            Ok(Target::iOS_Device)
        } else if str_eq(s, "x86_64-apple-darwin") {
            Ok(Target::macOS_x86)
        } else if str_eq(s, "aarch64-apple-darwin") {
            Ok(Target::macOS_aarch)
        } else {
            Err(concat("Unknown target: ", s))
        }
    }
}

impl core::str::FromStr for Target {
    type Err = String;

    fn from_str(s: &str) -> Result<Target, String> {
        Target::from_triple(s)
    }
}

} // verus!
