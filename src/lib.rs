//! Build orchestration for Apple XCFramework bundles: configuration
//! resolution, target selection, universal-library merging, framework
//! wrapping and XCFramework assembly, each stated as a verified plan that a
//! thin driver carries out.

pub mod action;
pub mod builder;
pub mod config;
pub mod configuration;
pub mod framework;
pub mod lipo;
pub mod modulemap;
pub mod paths;
pub mod pipeline;
pub mod platform;
pub mod plist;
pub mod rustup;
pub mod targets;
pub mod text;
pub mod triple;
pub mod xcframework;

pub use config::LibType;
pub use configuration::{Cli, Configuration, XCFrameworkConfiguration};
pub use pipeline::{build, BuildPlan, Produced};
