//! The resolved configuration of one run: the command-line options, the
//! manifest section, the library kind and the directories, checked before
//! anything is built.

use vstd::prelude::*;
use crate::config::{LibType, opt_view};
use crate::paths::{join, joined_path};
use crate::targets::Target;
use crate::text::{concat, occurs_in};

verus! {

/// The command-line options of a run.
#[derive(Debug, Clone)]
pub struct Cli {
    /// The library kind to build where the manifest declares both.
    pub lib_type: Option<LibType>,
    /// Whether the compiler's own output is held back.
    pub quiet: bool,
    /// The package to build.
    pub package: Option<String>,
    /// How many times verbose output is asked for.
    pub verbose: u8,
    /// Whether to build with the release profile.
    pub release: bool,
    /// The build profile, where it is not the release one.
    pub profile: Option<String>,
    /// Features to activate.
    pub features: Vec<String>,
    pub all_features: bool,
    pub no_default_features: bool,
    /// The manifest to read.
    pub manifest_path: Option<String>,
    /// Where all generated artifacts go.
    pub target_dir: Option<String>,
    /// Unstable flags handed to the compiler driver.
    pub unstable_flags: Option<String>,
}

/// The `[package.metadata.xcframework]` section of a manifest.
#[allow(non_snake_case)]
#[derive(Debug, Clone)]
pub struct XCFrameworkConfiguration {
    /// The directory that holds the headers and the module map.
    pub include_dir: String,
    /// The library kind, where the package declares both.
    pub lib_type: Option<LibType>,
    /// Whether the XCFramework is compressed.
    pub zip: bool,
    /// Whether the standard library is compiled as part of the build.
    pub build_std: bool,
    pub macOS: bool,
    pub macOS_targets: Vec<Target>,
    pub simulators: bool,
    pub iOS: bool,
    pub iOS_targets: Vec<Target>,
    pub iOS_simulator_targets: Vec<Target>,
}

/// Why a configuration was refused.
#[derive(Debug, PartialEq, Eq)]
pub enum ConfigError {
    /// A cdylib was asked for and the package declares only a staticlib.
    MissingCdylib,
    /// A staticlib was asked for and the package declares only a cdylib.
    MissingStaticlib,
    /// The package declares both kinds and no kind was chosen.
    AmbiguousLibType,
    /// The package declares neither kind.
    MissingCrateType,
    /// The include directory is not given.
    IncludeDirRequired,
    /// The include directory, given here, does not exist.
    IncludeDirNotFound(String),
    /// No platform is enabled.
    NothingToBuild,
}

/// A compilation target that the package declares: its name and whether
/// its crate types include a staticlib or a cdylib.
#[derive(Debug, Clone)]
pub struct PackageTarget {
    pub name: String,
    pub is_staticlib: bool,
    pub is_cdylib: bool,
}

/// Whether `zip` is on where the section does not set it.
pub fn zip_default() -> (r: bool)
    ensures
        r,
{
    true
}

/// The index of the first of `ts` that is a staticlib (`dynamic` false) or
/// a cdylib (`dynamic` true).
pub open spec fn first_of_kind(ts: Seq<PackageTarget>, dynamic: bool) -> Option<int>
    decreases ts.len(),
{
    if ts.len() == 0 {
        None
    } else {
        match first_of_kind(ts.drop_last(), dynamic) {
            Some(i) => Some(i),
            None => if (if dynamic {
                ts.last().is_cdylib
            } else {
                ts.last().is_staticlib
            }) {
                Some(ts.len() - 1)
            } else {
                None
            },
        }
    }
}

/// The library kind and the index of the target that builds it: the kind
/// asked for where the package declares it, else the one kind the package
/// declares, and an error where the kind asked for is not declared, where
/// none is asked for and both are declared, or where neither is.
pub open spec fn lib_type_choice(
    stat: Option<int>,
    dy: Option<int>,
    wanted: Option<LibType>,
) -> Result<(LibType, int), ConfigError> {
    match (stat, dy, wanted) {
        (Some(s), None, None) => Ok((LibType::StaticLib, s)),
        (Some(s), _, Some(LibType::StaticLib)) => Ok((LibType::StaticLib, s)),
        (Some(_), None, Some(LibType::CDyLib)) => Err(ConfigError::MissingCdylib),
        (None, Some(d), None) => Ok((LibType::CDyLib, d)),
        (_, Some(d), Some(LibType::CDyLib)) => Ok((LibType::CDyLib, d)),
        (_, Some(_), Some(LibType::StaticLib)) => Err(ConfigError::MissingStaticlib),
        (Some(_), Some(_), None) => Err(ConfigError::AmbiguousLibType),
        (None, None, _) => Err(ConfigError::MissingCrateType),
    }
}

fn find_first_of_kind(ts: &Vec<PackageTarget>, dynamic: bool) -> (r: Option<usize>)
    ensures
        index_of(r) == first_of_kind(ts@, dynamic),
{
    let mut i: usize = 0;
    while i < ts.len()
        invariant
            i <= ts@.len(),
            first_of_kind(ts@.subrange(0, i as int), dynamic) is None,
        decreases ts@.len() - i,
    {
        assert(ts@.subrange(0, i + 1).drop_last() =~= ts@.subrange(0, i as int));
        let hit = if dynamic {
            ts[i].is_cdylib
        } else {
            ts[i].is_staticlib
        };
        if hit {
            proof {
                lemma_first_of_kind_extends(ts@, dynamic, i as int + 1, i as int);
            }
            return Some(i);
        }
        i = i + 1;
    }
    assert(ts@.subrange(0, ts@.len() as int) =~= ts@);
    None
}

proof fn lemma_first_of_kind_extends(ts: Seq<PackageTarget>, dynamic: bool, n: int, k: int)
    requires
        0 <= n <= ts.len(),
        first_of_kind(ts.subrange(0, n), dynamic) == Some(k),
    ensures
        first_of_kind(ts, dynamic) == Some(k),
    decreases ts.len() - n,
{
    if n < ts.len() {
        assert(ts.subrange(0, n + 1).drop_last() =~= ts.subrange(0, n));
        assert(first_of_kind(ts.subrange(0, n + 1), dynamic) == Some(k));
        lemma_first_of_kind_extends(ts, dynamic, n + 1, k);
    } else {
        assert(ts.subrange(0, n) =~= ts);
    }
}

proof fn lemma_first_of_kind_bound(ts: Seq<PackageTarget>, dynamic: bool)
    ensures
        first_of_kind(ts, dynamic) matches Some(i) ==> 0 <= i < ts.len(),
    decreases ts.len(),
{
    if ts.len() > 0 {
        lemma_first_of_kind_bound(ts.drop_last(), dynamic);
    }
}

/// An index as an integer.
pub open spec fn index_of(o: Option<usize>) -> Option<int> {
    match o {
        Some(i) => Some(i as int),
        None => None,
    }
}

/// The library kind to build and the name of the target that builds it.
pub fn resolve_lib_type(targets: &Vec<PackageTarget>, wanted: Option<LibType>) -> (r: Result<
    (LibType, String),
    ConfigError,
>)
    ensures
        match lib_type_choice(first_of_kind(targets@, false), first_of_kind(targets@, true), wanted) {
            Ok((t, i)) => r matches Ok((rt, name)) && rt == t && name@ == targets@[i].name@,
            Err(e) => r == Err::<(LibType, String), ConfigError>(e),
        },
{
    proof {
        lemma_first_of_kind_bound(targets@, false);
        lemma_first_of_kind_bound(targets@, true);
    }
    let stat = find_first_of_kind(targets, false);
    let dy = find_first_of_kind(targets, true);
    assert(first_of_kind(targets@, false) == index_of(stat));
    assert(first_of_kind(targets@, true) == index_of(dy));
    match (stat, dy, wanted) {
        (Some(s), None, None) => Ok((LibType::StaticLib, targets[s].name.clone())),
        (Some(s), _, Some(LibType::StaticLib)) => Ok((LibType::StaticLib, targets[s].name.clone())),
        (Some(_), None, Some(LibType::CDyLib)) => Err(ConfigError::MissingCdylib),
        (None, Some(d), None) => Ok((LibType::CDyLib, targets[d].name.clone())),
        (_, Some(d), Some(LibType::CDyLib)) => Ok((LibType::CDyLib, targets[d].name.clone())),
        (_, Some(_), Some(LibType::StaticLib)) => Err(ConfigError::MissingStaticlib),
        (Some(_), Some(_), None) => Err(ConfigError::AmbiguousLibType),
        (None, None, _) => Err(ConfigError::MissingCrateType),
    }
}

/// The triples that a manifest section selects: the macOS list where macOS
/// is on, then the iOS list where iOS is on, followed by the iOS simulator
/// list where simulators are on too.
pub open spec fn chosen_of(c: XCFrameworkConfiguration) -> Seq<Target> {
    (if c.macOS {
        c.macOS_targets@
    } else {
        seq![]
    }) + (if c.iOS {
        c.iOS_targets@ + if c.simulators {
            c.iOS_simulator_targets@
        } else {
            seq![]
        }
    } else {
        seq![]
    })
}

fn append_targets(v: &mut Vec<Target>, more: &Vec<Target>)
    ensures
        final(v)@ == old(v)@ + more@,
{
    let ghost start = v@;
    let mut i: usize = 0;
    while i < more.len()
        invariant
            i <= more@.len(),
            v@ == start + more@.subrange(0, i as int),
        decreases more@.len() - i,
    {
        v.push(more[i]);
        i = i + 1;
        assert(v@ =~= start + more@.subrange(0, i as int));
    }
    assert(more@.subrange(0, more@.len() as int) =~= more@);
}

/// Whether the section's include directory is set, exists, and at least
/// one platform is enabled, checked in that order.
pub open spec fn section_check(
    c: XCFrameworkConfiguration,
    include_dir_exists: bool,
) -> Result<(), ConfigError> {
    if c.include_dir@.len() == 0 {
        Err(ConfigError::IncludeDirRequired)
    } else if !include_dir_exists {
        Err(ConfigError::IncludeDirNotFound(c.include_dir))
    } else if !c.iOS && !c.macOS {
        Err(ConfigError::NothingToBuild)
    } else {
        Ok(())
    }
}

impl XCFrameworkConfiguration {
    /// The triples to build, in the order the section lists them.
    pub fn chosen_targets(&self) -> (r: Vec<Target>)
        ensures
            r@ == chosen_of(*self),
    {
        let mut all: Vec<Target> = Vec::new();
        if self.macOS {
            append_targets(&mut all, &self.macOS_targets);
        }
        if self.iOS {
            append_targets(&mut all, &self.iOS_targets);
            if self.simulators {
                append_targets(&mut all, &self.iOS_simulator_targets);
            }
        }
        assert(all@ =~= chosen_of(*self));
        all
    }

    /// The section with its include directory taken relative to the
    /// package directory.
    pub fn in_package_dir(self, package_dir: &str) -> (r: XCFrameworkConfiguration)
        ensures
            r.include_dir@ == joined_path(package_dir@, self.include_dir@),
            r.lib_type == self.lib_type,
            r.zip == self.zip,
            r.build_std == self.build_std,
            r.macOS == self.macOS,
            r.macOS_targets@ == self.macOS_targets@,
            r.simulators == self.simulators,
            r.iOS == self.iOS,
            r.iOS_targets@ == self.iOS_targets@,
            r.iOS_simulator_targets@ == self.iOS_simulator_targets@,
    {
        let include_dir = join(package_dir, self.include_dir.as_str());
        XCFrameworkConfiguration { include_dir, ..self }
    }

    /// The section, once its include directory is known to be set and to
    /// exist and at least one platform is enabled.
    pub fn validated(self, include_dir_exists: bool) -> (r: Result<
        XCFrameworkConfiguration,
        ConfigError,
    >)
        ensures
            match section_check(self, include_dir_exists) {
                Ok(()) => r == Ok::<XCFrameworkConfiguration, ConfigError>(self),
                Err(e) => r == Err::<XCFrameworkConfiguration, ConfigError>(e),
            },
    {
        if self.include_dir.unicode_len() == 0 {
            return Err(ConfigError::IncludeDirRequired);
        }
        if !include_dir_exists {
            return Err(ConfigError::IncludeDirNotFound(self.include_dir));
        }
        if !self.iOS && !self.macOS {
            return Err(ConfigError::NothingToBuild);
        }
        Ok(self)
    }
}

/// The unstable flags once standard-library compilation is asked for:
/// unchanged where they already hold `build-std=std`, else with it added.
pub open spec fn flags_with_build_std(flags: Option<Seq<char>>) -> Option<Seq<char>> {
    match flags {
        Some(f) => if occurs_in("build-std=std"@, f) {
            Some(f)
        } else {
            Some(f + ","@ + "build-std=std"@)
        },
        None => Some("build-std=std"@),
    }
}

/// The unstable flags of a run: those of the command line, with
/// `build-std=std` added where the section asks to compile the standard
/// library of a static library.
pub open spec fn run_flags(flags: Option<Seq<char>>, build_std: bool, t: LibType) -> Option<
    Seq<char>,
> {
    if build_std && t == LibType::StaticLib {
        flags_with_build_std(flags)
    } else {
        flags
    }
}

fn add_build_std(flags: Option<String>) -> (r: Option<String>)
    ensures
        opt_view(r) == flags_with_build_std(opt_view(flags)),
{
    match flags {
        Some(f) => if crate::text::contains_str(f.as_str(), "build-std=std") {
            Some(f)
        } else {
            let with_comma = concat(f.as_str(), ",");
            Some(concat(with_comma.as_str(), "build-std=std"))
        },
        None => Some(String::from_str("build-std=std")),
    }
}

/// Everything a run needs to know before it builds.
#[derive(Debug)]
pub struct Configuration {
    pub cargo_section: XCFrameworkConfiguration,
    pub cli: Cli,
    pub lib_type: LibType,
    /// Name of the library, which names the compiled artifacts.
    pub lib_name: String,
    /// Directory for all generated artifacts.
    pub target_dir: String,
    /// Directory where the XCFramework is put together.
    pub build_dir: String,
    /// The module name, once it has been read from the module map.
    pub module_name: Option<String>,
}

impl Configuration {
    /// The module name found so far.
    pub open spec fn known_module_name(&self) -> Option<Seq<char>> {
        opt_view(self.module_name)
    }

    /// The configuration of a run: the target directory of the command line,
    /// else the package's; the build directory inside it; the library kind
    /// and name that the package's targets and the choice of the command
    /// line, else of the section, give; and the unstable flags with
    /// `build-std=std` where the section asks for it.
    pub fn new(
        metadata_target_dir: &str,
        package_targets: &Vec<PackageTarget>,
        cli: Cli,
        xc_conf: XCFrameworkConfiguration,
    ) -> (r: Result<Configuration, ConfigError>)
        ensures
            ({
                let wanted = override_choice(xc_conf.lib_type, cli.lib_type);
                let choice = lib_type_choice(
                    first_of_kind(package_targets@, false),
                    first_of_kind(package_targets@, true),
                    wanted,
                );
                let target_dir = match cli.target_dir {
                    Some(d) => d@,
                    None => metadata_target_dir@,
                };
                match choice {
                    Err(e) => r == Err::<Configuration, ConfigError>(e),
                    Ok((t, i)) => r matches Ok(c) && c.lib_type == t && c.lib_name@
                        == package_targets@[i].name@ && c.target_dir@ == target_dir
                        && c.build_dir@ == joined_path(target_dir, "xcframework"@)
                        && c.cargo_section == xc_conf && opt_view(c.cli.unstable_flags) == run_flags(
                        opt_view(cli.unstable_flags),
                        xc_conf.build_std,
                        t,
                    ) && c.cli == (Cli { unstable_flags: c.cli.unstable_flags, ..cli })
                        && c.known_module_name() is None,
                }
            }),
    {
        let target_dir = match &cli.target_dir {
            Some(d) => d.clone(),
            None => String::from_str(metadata_target_dir),
        };
        let build_dir = join(target_dir.as_str(), "xcframework");
        let wanted = match cli.lib_type {
            Some(t) => Some(t),
            None => xc_conf.lib_type,
        };
        let (lib_type, lib_name) = match resolve_lib_type(package_targets, wanted) {
            Ok(x) => x,
            Err(e) => return Err(e),
        };
        let unstable_flags = if xc_conf.build_std && lib_type == LibType::StaticLib {
            add_build_std(cli.unstable_flags)
        } else {
            cli.unstable_flags
        };
        let cli = Cli { unstable_flags, ..cli };
        Ok(Configuration {
            cargo_section: xc_conf,
            cli,
            lib_type,
            lib_name,
            target_dir,
            build_dir,
            module_name: None,
        })
    }

    /// The build profile: `release` where release mode is on, else the
    /// profile given, else `debug`.
    pub fn profile(&self) -> (r: &str)
        ensures
            r@ == profile_of(self.cli),
    {
        if self.cli.release {
            "release"
        } else {
            match &self.cli.profile {
                Some(p) => p.as_str(),
                None => "debug",
            }
        }
    }

    /// The module name, where it has been read already.
    pub fn module_name(&self) -> (r: Option<String>)
        ensures
            opt_view(r) == self.known_module_name(),
    {
        match &self.module_name {
            Some(n) => Some(n.clone()),
            None => None,
        }
    }

    /// Keeps `name` as the module name, unless one is known already: the
    /// name is read once and reused.
    pub fn remember_module_name(&mut self, name: String)
        ensures
            final(self).known_module_name() == match old(self).known_module_name() {
                Some(n) => Some(n),
                None => Some(name@),
            },
            final(self).cargo_section == old(self).cargo_section,
            final(self).cli == old(self).cli,
            final(self).lib_type == old(self).lib_type,
            final(self).lib_name == old(self).lib_name,
            final(self).target_dir == old(self).target_dir,
            final(self).build_dir == old(self).build_dir,
    {
        if self.module_name.is_none() {
            self.module_name = Some(name);
        }
    }
}

/// The library kind asked for: the command line's, else the section's.
pub open spec fn override_choice(section: Option<LibType>, cli: Option<LibType>) -> Option<LibType> {
    match cli {
        Some(t) => Some(t),
        None => section,
    }
}

/// The build profile that the command-line options select.
pub open spec fn profile_of(cli: Cli) -> Seq<char> {
    if cli.release {
        "release"@
    } else {
        match cli.profile {
            Some(p) => p@,
            None => "debug"@,
        }
    }
}

} // verus!
