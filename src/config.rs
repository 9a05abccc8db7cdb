//! The configuration section: which platforms to build, with which
//! architectures, and how the settings of several sources are merged.

use vstd::prelude::*;
use crate::platform::{ApplePlatform, Environment, EnvironmentWithoutCatalyst};
use crate::targets::BuildTarget;

verus! {

/// A platform family that the configuration section can enable.
#[derive(Debug, Clone, Copy, PartialEq, Eq, Hash, Structural)]
pub enum SupportedTargetPlatform {
    IOS,
    MacOS,
    TvOS,
    WatchOS,
}

/// A CPU architecture that a custom platform setting can ask for.
#[derive(Debug, Clone, Copy, PartialEq, Eq, Structural)]
pub enum Architecture {
    Aarch64,
    X86_64,
    Arm64e,
    ArmV7k,
}

/// The library kind that the manifest's `crate-type` or an override selects.
#[derive(Debug, Clone, Copy, PartialEq, Eq, Structural)]
pub enum LibType {
    StaticLib,
    CDyLib,
}

/// The file extension of a library of kind `t`.
pub open spec fn file_ending_of(t: LibType) -> Seq<char> {
    match t {
        LibType::StaticLib => "a"@,
        LibType::CDyLib => "dylib"@,
    }
}

impl LibType {
    pub fn file_ending(&self) -> (r: &'static str)
        ensures
            r@ == file_ending_of(*self),
    {
        match self {
            LibType::StaticLib => "a",
            LibType::CDyLib => "dylib",
        }
    }

    /// The kind that a `crate-type` name stands for.
    pub fn from_crate_type(s: &str) -> (r: Result<LibType, String>)
        ensures
            s@ == "staticlib"@ ==> r == Ok::<LibType, String>(LibType::StaticLib),
            s@ == "cdylib"@ ==> r == Ok::<LibType, String>(LibType::CDyLib),
            s@ != "staticlib"@ && s@ != "cdylib"@ ==> (r matches Err(m) && m@
                == "Unknown lib type: "@ + s@),
    {
        proof {
            reveal_strlit("staticlib");
            reveal_strlit("cdylib");
            assert("staticlib"@.len() != "cdylib"@.len());
        }
        if crate::text::str_eq(s, "staticlib") {
            Ok(LibType::StaticLib)
        } else if crate::text::str_eq(s, "cdylib") {
            Ok(LibType::CDyLib)
        } else {
            Err(crate::text::concat("Unknown lib type: ", s))
        }
    }
}

impl core::str::FromStr for LibType {
    type Err = String;

    fn from_str(s: &str) -> Result<LibType, String> {
        LibType::from_crate_type(s)
    }
}

/// A platform setting written out: whether it is on, whether its simulator
/// triples are built, and for which architectures.
#[derive(Debug, Clone)]
pub struct TargetPlatformConfig {
    pub enable: bool,
    pub simulator: bool,
    pub archs: Vec<Architecture>,
}

/// A platform setting: a plain switch for the preset triples, or one
/// written out.
#[derive(Debug, Clone)]
pub enum TargetPlatformConfigVariant {
    Preset(bool),
    Custom(TargetPlatformConfig),
}

/// What a platform setting says, as a value.
pub enum PlatformChoice {
    Preset(bool),
    Custom { enable: bool, simulator: bool, archs: Seq<Architecture> },
}

impl View for TargetPlatformConfigVariant {
    type V = PlatformChoice;

    open spec fn view(&self) -> PlatformChoice {
        match self {
            TargetPlatformConfigVariant::Preset(b) => PlatformChoice::Preset(*b),
            TargetPlatformConfigVariant::Custom(c) => PlatformChoice::Custom {
                enable: c.enable,
                simulator: c.simulator,
                archs: c.archs@,
            },
        }
    }
}

impl View for BuildTarget {
    type V = (Seq<char>, ApplePlatform);

    open spec fn view(&self) -> (Seq<char>, ApplePlatform) {
        (self.triple@, self.platform)
    }
}

/// The views of a list of build targets.
pub open spec fn target_views(ts: Seq<BuildTarget>) -> Seq<(Seq<char>, ApplePlatform)> {
    ts.map_values(|t: BuildTarget| t@)
}

/// The triples that a platform family's preset switch builds.
pub open spec fn preset_of(p: SupportedTargetPlatform) -> Seq<(Seq<char>, ApplePlatform)> {
    match p {
        SupportedTargetPlatform::IOS => seq![
            ("aarch64-apple-ios"@, ApplePlatform::IOS(Environment::Device)),
            ("aarch64-apple-ios-sim"@, ApplePlatform::IOS(Environment::Simulator)),
            ("x86_64-apple-ios"@, ApplePlatform::IOS(Environment::Simulator)),
        ],
        SupportedTargetPlatform::MacOS => seq![
            ("x86_64-apple-darwin"@, ApplePlatform::MacOS),
            ("aarch64-apple-darwin"@, ApplePlatform::MacOS),
        ],
        SupportedTargetPlatform::TvOS => seq![
            ("aarch64-apple-tvos"@, ApplePlatform::TvOS(EnvironmentWithoutCatalyst::Device)),
            ("aarch64-apple-tvos-sim"@, ApplePlatform::TvOS(EnvironmentWithoutCatalyst::Simulator)),
            ("x86_64-apple-tvos"@, ApplePlatform::TvOS(EnvironmentWithoutCatalyst::Simulator)),
        ],
        SupportedTargetPlatform::WatchOS => seq![
            ("aarch64-apple-watchos"@, ApplePlatform::WatchOS(EnvironmentWithoutCatalyst::Device)),
            (
                "aarch64-apple-watchos-sim"@,
                ApplePlatform::WatchOS(EnvironmentWithoutCatalyst::Simulator),
            ),
            (
                "x86_64-apple-watchos-sim"@,
                ApplePlatform::WatchOS(EnvironmentWithoutCatalyst::Simulator),
            ),
        ],
    }
}

/// `s` followed by `x` where `cond` holds, else `s`.
pub open spec fn push_if<A>(s: Seq<A>, cond: bool, x: A) -> Seq<A> {
    if cond {
        s.push(x)
    } else {
        s
    }
}

/// The triples that a written-out setting builds for a platform family: the
/// device triple of each architecture asked for that has one, and, where
/// simulators are on, the simulator triple of each architecture asked for
/// that has one.
pub open spec fn custom_of(p: SupportedTargetPlatform, sim: bool, archs: Seq<Architecture>) -> Seq<
    (Seq<char>, ApplePlatform),
> {
    let arm = archs.contains(Architecture::Aarch64);
    let x86 = archs.contains(Architecture::X86_64);
    let arm64e = archs.contains(Architecture::Arm64e);
    match p {
        SupportedTargetPlatform::IOS => {
            let a = push_if(seq![], arm, ("aarch64-apple-ios"@, ApplePlatform::IOS(Environment::Device)));
            let b = push_if(a, arm && sim, ("aarch64-apple-ios-sim"@, ApplePlatform::IOS(Environment::Simulator)));
            let c = push_if(b, x86 && sim, ("x86_64-apple-ios"@, ApplePlatform::IOS(Environment::Simulator)));
            push_if(c, arm64e, ("arm64e-apple-ios"@, ApplePlatform::IOS(Environment::Device)))
        },
        SupportedTargetPlatform::MacOS => {
            let a = push_if(seq![], x86, ("x86_64-apple-darwin"@, ApplePlatform::MacOS));
            let b = push_if(a, arm, ("aarch64-apple-darwin"@, ApplePlatform::MacOS));
            push_if(b, arm64e, ("arm64e-apple-darwin"@, ApplePlatform::MacOS))
        },
        SupportedTargetPlatform::TvOS => {
            let a = push_if(seq![], arm, ("aarch64-apple-tvos"@, ApplePlatform::TvOS(EnvironmentWithoutCatalyst::Device)));
            let b = push_if(a, arm && sim, ("aarch64-apple-tvos-sim"@, ApplePlatform::TvOS(EnvironmentWithoutCatalyst::Simulator)));
            push_if(b, x86 && sim, ("x86_64-apple-tvos"@, ApplePlatform::TvOS(EnvironmentWithoutCatalyst::Simulator)))
        },
        SupportedTargetPlatform::WatchOS => {
            let a = push_if(seq![], arm, ("aarch64-apple-watchos"@, ApplePlatform::WatchOS(EnvironmentWithoutCatalyst::Device)));
            let b = push_if(a, arm && sim, ("aarch64-apple-watchos-sim"@, ApplePlatform::WatchOS(EnvironmentWithoutCatalyst::Simulator)));
            push_if(b, x86 && sim, ("x86_64-apple-watchos-sim"@, ApplePlatform::WatchOS(EnvironmentWithoutCatalyst::Simulator)))
        },
    }
}

/// Whether `p` is a simulator platform.
pub open spec fn is_simulator_platform(p: ApplePlatform) -> bool {
    match p {
        ApplePlatform::IOS(Environment::Simulator) => true,
        ApplePlatform::TvOS(EnvironmentWithoutCatalyst::Simulator) => true,
        ApplePlatform::WatchOS(EnvironmentWithoutCatalyst::Simulator) => true,
        _ => false,
    }
}

/// With simulators off, a written-out setting builds no simulator triple.
pub proof fn lemma_no_simulators_unless_asked(p: SupportedTargetPlatform, archs: Seq<Architecture>)
    ensures
        forall|i: int|
            0 <= i < custom_of(p, false, archs).len() ==> !is_simulator_platform(
                #[trigger] custom_of(p, false, archs)[i].1,
            ),
{
}

/// The triples that one platform entry of the configuration builds.
pub open spec fn entry_targets(p: SupportedTargetPlatform, c: PlatformChoice) -> Seq<
    (Seq<char>, ApplePlatform),
> {
    match c {
        PlatformChoice::Preset(enable) => if enable {
            preset_of(p)
        } else {
            seq![]
        },
        PlatformChoice::Custom { enable, simulator, archs } => if enable {
            custom_of(p, simulator, archs)
        } else {
            seq![]
        },
    }
}

/// The triples that a list of platform entries builds, entry by entry.
pub open spec fn entries_targets(es: Seq<(SupportedTargetPlatform, PlatformChoice)>) -> Seq<
    (Seq<char>, ApplePlatform),
>
    decreases es.len(),
{
    if es.len() == 0 {
        seq![]
    } else {
        entries_targets(es.drop_last()) + entry_targets(es.last().0, es.last().1)
    }
}

fn target(triple: &str, platform: ApplePlatform) -> (r: BuildTarget)
    ensures
        r@ == (triple@, platform),
{
    BuildTarget { triple: String::from_str(triple), platform }
}

fn push_target(v: &mut Vec<BuildTarget>, cond: bool, triple: &str, platform: ApplePlatform)
    ensures
        target_views(final(v)@) == push_if(target_views(old(v)@), cond, (triple@, platform)),
{
    if cond {
        v.push(target(triple, platform));
    }
    assert(target_views(final(v)@) =~= push_if(target_views(old(v)@), cond, (triple@, platform)));
}

fn has_arch(archs: &Vec<Architecture>, a: Architecture) -> (r: bool)
    ensures
        r == archs@.contains(a),
{
    let mut i: usize = 0;
    while i < archs.len()
        invariant
            i <= archs@.len(),
            forall|j: int| 0 <= j < i ==> archs@[j] != a,
        decreases archs@.len() - i,
    {
        if archs[i] == a {
            return true;
        }
        i = i + 1;
    }
    false
}

impl TargetPlatformConfig {
    pub fn default_enable() -> (r: bool)
        ensures
            r,
    {
        true
    }

    pub fn default_simulator() -> (r: bool)
        ensures
            r,
    {
        true
    }

    pub fn default_archs() -> (r: Vec<Architecture>)
        ensures
            r@ == seq![Architecture::Aarch64, Architecture::X86_64],
    {
        vec![Architecture::Aarch64, Architecture::X86_64]
    }
}

impl SupportedTargetPlatform {
    /// The triples that this family's preset switch builds.
    pub fn preset_targets(&self) -> (r: Vec<BuildTarget>)
        ensures
            target_views(r@) == preset_of(*self),
    {
        let mut v: Vec<BuildTarget> = Vec::new();
        match self {
            SupportedTargetPlatform::IOS => {
                push_target(&mut v, true, "aarch64-apple-ios", ApplePlatform::IOS(Environment::Device));
                push_target(&mut v, true, "aarch64-apple-ios-sim", ApplePlatform::IOS(Environment::Simulator));
                push_target(&mut v, true, "x86_64-apple-ios", ApplePlatform::IOS(Environment::Simulator));
            },
            SupportedTargetPlatform::MacOS => {
                push_target(&mut v, true, "x86_64-apple-darwin", ApplePlatform::MacOS);
                push_target(&mut v, true, "aarch64-apple-darwin", ApplePlatform::MacOS);
            },
            SupportedTargetPlatform::TvOS => {
                push_target(&mut v, true, "aarch64-apple-tvos", ApplePlatform::TvOS(EnvironmentWithoutCatalyst::Device));
                push_target(&mut v, true, "aarch64-apple-tvos-sim", ApplePlatform::TvOS(EnvironmentWithoutCatalyst::Simulator));
                push_target(&mut v, true, "x86_64-apple-tvos", ApplePlatform::TvOS(EnvironmentWithoutCatalyst::Simulator));
            },
            SupportedTargetPlatform::WatchOS => {
                push_target(&mut v, true, "aarch64-apple-watchos", ApplePlatform::WatchOS(EnvironmentWithoutCatalyst::Device));
                push_target(&mut v, true, "aarch64-apple-watchos-sim", ApplePlatform::WatchOS(EnvironmentWithoutCatalyst::Simulator));
                push_target(&mut v, true, "x86_64-apple-watchos-sim", ApplePlatform::WatchOS(EnvironmentWithoutCatalyst::Simulator));
            },
        }
        assert(target_views(v@) =~= preset_of(*self));
        v
    }

    /// The triples that a written-out setting builds for this family.
    pub fn to_targets(&self, enable_sim: bool, archs: &Vec<Architecture>) -> (r: Vec<BuildTarget>)
        ensures
            target_views(r@) == custom_of(*self, enable_sim, archs@),
    {
        let arm = has_arch(archs, Architecture::Aarch64);
        let x86 = has_arch(archs, Architecture::X86_64);
        let arm64e = has_arch(archs, Architecture::Arm64e);
        let mut v: Vec<BuildTarget> = Vec::new();
        assert(target_views(v@) =~= seq![]);
        match self {
            SupportedTargetPlatform::IOS => {
                push_target(&mut v, arm, "aarch64-apple-ios", ApplePlatform::IOS(Environment::Device));
                push_target(&mut v, arm && enable_sim, "aarch64-apple-ios-sim", ApplePlatform::IOS(Environment::Simulator));
                push_target(&mut v, x86 && enable_sim, "x86_64-apple-ios", ApplePlatform::IOS(Environment::Simulator));
                push_target(&mut v, arm64e, "arm64e-apple-ios", ApplePlatform::IOS(Environment::Device));
            },
            SupportedTargetPlatform::MacOS => {
                push_target(&mut v, x86, "x86_64-apple-darwin", ApplePlatform::MacOS);
                push_target(&mut v, arm, "aarch64-apple-darwin", ApplePlatform::MacOS);
                push_target(&mut v, arm64e, "arm64e-apple-darwin", ApplePlatform::MacOS);
            },
            SupportedTargetPlatform::TvOS => {
                push_target(&mut v, arm, "aarch64-apple-tvos", ApplePlatform::TvOS(EnvironmentWithoutCatalyst::Device));
                push_target(&mut v, arm && enable_sim, "aarch64-apple-tvos-sim", ApplePlatform::TvOS(EnvironmentWithoutCatalyst::Simulator));
                push_target(&mut v, x86 && enable_sim, "x86_64-apple-tvos", ApplePlatform::TvOS(EnvironmentWithoutCatalyst::Simulator));
            },
            SupportedTargetPlatform::WatchOS => {
                push_target(&mut v, arm, "aarch64-apple-watchos", ApplePlatform::WatchOS(EnvironmentWithoutCatalyst::Device));
                push_target(&mut v, arm && enable_sim, "aarch64-apple-watchos-sim", ApplePlatform::WatchOS(EnvironmentWithoutCatalyst::Simulator));
                push_target(&mut v, x86 && enable_sim, "x86_64-apple-watchos-sim", ApplePlatform::WatchOS(EnvironmentWithoutCatalyst::Simulator));
            },
        }
        v
    }
}

/// Settings gathered from the configuration sources.
#[derive(Debug, Clone)]
pub struct Config {
    /// Name of the module, as the module map declares it; names the bundle.
    pub module_name: Option<String>,
    /// The directory that holds the headers and the module map.
    pub include_dir: String,
    pub lib_type: Option<LibType>,
    /// One setting per platform family, in the order first given.
    pub platforms: Vec<(SupportedTargetPlatform, TargetPlatformConfigVariant)>,
    pub output_dir: Option<String>,
    /// Whether the XCFramework is compressed.
    pub zip: bool,
}

/// A `Config` as a value.
pub struct ConfigView {
    pub module_name: Option<Seq<char>>,
    pub include_dir: Seq<char>,
    pub lib_type: Option<LibType>,
    pub platforms: Seq<(SupportedTargetPlatform, PlatformChoice)>,
    pub output_dir: Option<Seq<char>>,
    pub zip: bool,
}

pub open spec fn opt_view(o: Option<String>) -> Option<Seq<char>> {
    match o {
        Some(s) => Some(s@),
        None => None,
    }
}

pub open spec fn entry_views(es: Seq<(SupportedTargetPlatform, TargetPlatformConfigVariant)>) -> Seq<
    (SupportedTargetPlatform, PlatformChoice),
> {
    es.map_values(|e: (SupportedTargetPlatform, TargetPlatformConfigVariant)| (e.0, e.1@))
}

impl View for Config {
    type V = ConfigView;

    open spec fn view(&self) -> ConfigView {
        ConfigView {
            module_name: opt_view(self.module_name),
            include_dir: self.include_dir@,
            lib_type: self.lib_type,
            platforms: entry_views(self.platforms@),
            output_dir: opt_view(self.output_dir),
            zip: self.zip,
        }
    }
}

/// Whether no platform family has two entries.
pub open spec fn keys_unique(es: Seq<(SupportedTargetPlatform, PlatformChoice)>) -> bool {
    forall|i: int, j: int| 0 <= i < j < es.len() ==> es[i].0 != es[j].0
}

/// The entries with `k` set to `c`: in place where `k` has an entry,
/// else at the end.
pub open spec fn set_entry(
    es: Seq<(SupportedTargetPlatform, PlatformChoice)>,
    k: SupportedTargetPlatform,
    c: PlatformChoice,
) -> Seq<(SupportedTargetPlatform, PlatformChoice)> {
    if exists|i: int| 0 <= i < es.len() && es[i].0 == k {
        let i = choose|i: int| 0 <= i < es.len() && es[i].0 == k;
        es.update(i, (k, c))
    } else {
        es.push((k, c))
    }
}

/// The entries `es` once each entry of `src` is set, in order.
pub open spec fn set_entries(
    es: Seq<(SupportedTargetPlatform, PlatformChoice)>,
    src: Seq<(SupportedTargetPlatform, PlatformChoice)>,
) -> Seq<(SupportedTargetPlatform, PlatformChoice)>
    decreases src.len(),
{
    if src.len() == 0 {
        es
    } else {
        let prev = set_entries(es, src.drop_last());
        set_entry(prev, src.last().0, src.last().1)
    }
}

/// `a` where `b` is none, else `b`.
pub open spec fn override_with<A>(a: Option<A>, b: Option<A>) -> Option<A> {
    match b {
        Some(x) => Some(x),
        None => a,
    }
}

/// The settings `c` once the source `src` is laid over them: the module
/// name, library kind and output directory where `src` gives them, its
/// include directory and zip switch always, and each of its platform
/// entries.
pub open spec fn merged(c: ConfigView, src: ConfigView) -> ConfigView {
    ConfigView {
        module_name: override_with(c.module_name, src.module_name),
        include_dir: src.include_dir,
        lib_type: override_with(c.lib_type, src.lib_type),
        platforms: set_entries(c.platforms, src.platforms),
        output_dir: override_with(c.output_dir, src.output_dir),
        zip: src.zip,
    }
}

proof fn lemma_set_entry_keeps_unique(
    es: Seq<(SupportedTargetPlatform, PlatformChoice)>,
    k: SupportedTargetPlatform,
    c: PlatformChoice,
)
    requires
        keys_unique(es),
    ensures
        keys_unique(set_entry(es, k, c)),
{
}

impl TargetPlatformConfigVariant {
    /// A copy of this setting.
    pub fn copied(&self) -> (r: TargetPlatformConfigVariant)
        ensures
            r@ == self@,
    {
        match self {
            TargetPlatformConfigVariant::Preset(b) => TargetPlatformConfigVariant::Preset(*b),
            TargetPlatformConfigVariant::Custom(c) => {
                let mut archs: Vec<Architecture> = Vec::new();
                let mut i: usize = 0;
                while i < c.archs.len()
                    invariant
                        i <= c.archs@.len(),
                        archs@ == c.archs@.subrange(0, i as int),
                    decreases c.archs@.len() - i,
                {
                    archs.push(c.archs[i]);
                    i = i + 1;
                }
                assert(archs@ =~= c.archs@);
                TargetPlatformConfigVariant::Custom(
                    TargetPlatformConfig { enable: c.enable, simulator: c.simulator, archs },
                )
            },
        }
    }
}

fn copy_opt(o: &Option<String>) -> (r: Option<String>)
    ensures
        opt_view(r) == opt_view(*o),
{
    match o {
        Some(s) => Some(s.clone()),
        None => None,
    }
}

impl Config {
    /// Whether each platform family has at most one entry.
    pub open spec fn wf(&self) -> bool {
        keys_unique(self@.platforms)
    }

    /// Settings with nothing set: no module name, include directory or
    /// platform, and no compression.
    pub fn empty() -> (r: Config)
        ensures
            r.wf(),
            r@.module_name is None,
            r@.include_dir == Seq::<char>::empty(),
            r@.lib_type is None,
            r@.platforms == Seq::<(SupportedTargetPlatform, PlatformChoice)>::empty(),
            r@.output_dir is None,
            !r@.zip,
    {
        let r = Config {
            module_name: None,
            include_dir: String::new(),
            lib_type: None,
            platforms: Vec::new(),
            output_dir: None,
            zip: false,
        };
        assert(r@.platforms =~= Seq::<(SupportedTargetPlatform, PlatformChoice)>::empty());
        r
    }

    /// Sets the entry of platform family `k` to `v`, in place where it has
    /// one, else at the end.
    pub fn set_platform(&mut self, k: SupportedTargetPlatform, v: TargetPlatformConfigVariant)
        requires
            old(self).wf(),
        ensures
            final(self).wf(),
            final(self)@ == (ConfigView {
                platforms: set_entry(old(self)@.platforms, k, v@),
                ..old(self)@
            }),
    {
        let ghost es = self@.platforms;
        let ghost goal = set_entry(es, k, v@);
        proof {
            lemma_set_entry_keeps_unique(es, k, v@);
        }
        let mut i: usize = 0;
        while i < self.platforms.len()
            invariant
                self@ == old(self)@,
                self.wf(),
                es == self@.platforms,
                goal == set_entry(es, k, v@),
                i <= self.platforms@.len(),
                forall|j: int| 0 <= j < i ==> es[j].0 != k,
            decreases self.platforms@.len() - i,
        {
            if self.platforms[i].0 == k {
                assert(0 <= i < es.len() && es[i as int].0 == k);
                let ghost j = choose|j: int| 0 <= j < es.len() && es[j].0 == k;
                assert(j == i);
                let entry = (k, v);
                assert(entry_views(self.platforms@.update(i as int, entry)) =~= goal);
                self.platforms.set(i, entry);
                return;
            }
            i = i + 1;
        }
        let entry = (k, v);
        assert(entry_views(self.platforms@.push(entry)) =~= goal);
        self.platforms.push(entry);
    }

    /// Lays the settings of `source` over these.
    pub fn update(&mut self, source: &Config)
        requires
            old(self).wf(),
        ensures
            final(self).wf(),
            final(self)@ == merged(old(self)@, source@),
    {
        if let Some(module_name) = &source.module_name {
            self.module_name = Some(module_name.clone());
        }
        self.include_dir = source.include_dir.clone();
        if let Some(lib_type) = &source.lib_type {
            self.lib_type = Some(*lib_type);
        }
        if let Some(output_dir) = &source.output_dir {
            self.output_dir = Some(output_dir.clone());
        }
        let ghost base = old(self)@.platforms;
        let ghost src = source@.platforms;
        let mut i: usize = 0;
        while i < source.platforms.len()
            invariant
                self.wf(),
                i <= src.len(),
                src == source@.platforms,
                self@.platforms == set_entries(base, src.subrange(0, i as int)),
                self@.module_name == override_with(old(self)@.module_name, source@.module_name),
                self@.include_dir == source@.include_dir,
                self@.lib_type == override_with(old(self)@.lib_type, source@.lib_type),
                self@.output_dir == override_with(old(self)@.output_dir, source@.output_dir),
            decreases src.len() - i,
        {
            assert(src.subrange(0, i + 1).drop_last() =~= src.subrange(0, i as int));
            let k = source.platforms[i].0;
            let v = source.platforms[i].1.copied();
            self.set_platform(k, v);
            i = i + 1;
        }
        assert(src.subrange(0, src.len() as int) =~= src);
        self.zip = source.zip;
    }

    /// The triples that the enabled platform entries build, entry by entry.
    pub fn targets(&self) -> (r: Vec<BuildTarget>)
        ensures
            target_views(r@) == entries_targets(self@.platforms),
    {
        let ghost es = self@.platforms;
        let mut r: Vec<BuildTarget> = Vec::new();
        let mut i: usize = 0;
        assert(target_views(r@) =~= seq![]);
        while i < self.platforms.len()
            invariant
                i <= es.len(),
                es == self@.platforms,
                target_views(r@) == entries_targets(es.subrange(0, i as int)),
            decreases es.len() - i,
        {
            assert(es.subrange(0, i + 1).drop_last() =~= es.subrange(0, i as int));
            let (platform, setting) = &self.platforms[i];
            let mut more = match setting {
                TargetPlatformConfigVariant::Preset(enable) => if *enable {
                    platform.preset_targets()
                } else {
                    Vec::new()
                },
                TargetPlatformConfigVariant::Custom(c) => if c.enable {
                    platform.to_targets(c.simulator, &c.archs)
                } else {
                    Vec::new()
                },
            };
            let ghost before = r@;
            let ghost added = more@;
            r.append(&mut more);
            assert(target_views(r@) =~= target_views(before) + target_views(added));
            i = i + 1;
        }
        assert(es.subrange(0, es.len() as int) =~= es);
        r
    }
}

/// A manifest field that is either given or taken from the workspace.
#[derive(Clone, Debug)]
pub enum MaybeWorkspace<T> {
    Workspace(TomlWorkspaceField),
    Defined(T),
}

/// The `{ workspace = true }` form of a manifest field.
#[derive(Clone, Debug, PartialEq, Eq, Structural)]
pub struct TomlWorkspaceField {
    pub workspace: bool,
}

} // verus!
