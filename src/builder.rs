//! The target-build step: one compiler invocation for every selected
//! triple, and where each triple's library is then found.

use vstd::prelude::*;
use crate::action::{push_string, strs};
use crate::config::{LibType, file_ending_of};
use crate::configuration::{Configuration, XCFrameworkConfiguration, chosen_of, profile_of};
use crate::paths::{join, joined_path};
use crate::platform::{ApplePlatform, Environment};
use crate::targets::{BuildTarget, Target, triple_of};
use crate::text::{concat, slice_owned};

verus! {

/// `s` with each `-` turned into `_`.
pub open spec fn underscored(s: Seq<char>) -> Seq<char> {
    s.map_values(|c: char| if c == '-' { '_' } else { c })
}

/// The file name of library `name` of kind `t`: `lib<name>.<ending>`,
/// with the dashes of the name turned into underscores.
pub open spec fn lib_file_name_of(name: Seq<char>, t: LibType) -> Seq<char> {
    "lib"@ + underscored(name) + "."@ + file_ending_of(t)
}

/// Where the compiler puts the library `file` built for `triple`:
/// `<target_dir>/<triple>/<profile>/<file>`.
pub open spec fn lib_path_of(target_dir: Seq<char>, triple: Seq<char>, profile: Seq<char>, file: Seq<char>) -> Seq<char> {
    joined_path(joined_path(joined_path(target_dir, triple), profile), file)
}

/// Where the libraries of `ts` are, in order.
pub open spec fn lib_paths_of(target_dir: Seq<char>, profile: Seq<char>, file: Seq<char>, ts: Seq<Target>) -> Seq<Seq<char>> {
    ts.map_values(|t: Target| lib_path_of(target_dir, triple_of(t), profile, file))
}

/// `s` with its dashes turned into underscores.
pub fn underscore_dashes(s: &str) -> (r: String)
    ensures
        r@ == underscored(s@),
{
    let n = s.unicode_len();
    let mut r = String::new();
    let mut i: usize = 0;
    while i < n
        invariant
            n == s@.len(),
            i <= n,
            r@ == underscored(s@.subrange(0, i as int)),
        decreases n - i,
    {
        let ghost before = r@;
        if s.get_char(i) == '-' {
            r.append("_");
            proof {
                reveal_strlit("_");
            }
        } else {
            let one = slice_owned(s, i, i + 1);
            r.append(one.as_str());
        }
        i = i + 1;
        assert(r@ =~= underscored(s@.subrange(0, i as int)));
    }
    assert(s@.subrange(0, n as int) =~= s@);
    r
}

/// The file name of the library that a run builds.
pub fn lib_file_name(lib_name: &str, lib_type: LibType) -> (r: String)
    ensures
        r@ == lib_file_name_of(lib_name@, lib_type),
{
    let name = underscore_dashes(lib_name);
    let a = concat("lib", name.as_str());
    let b = concat(a.as_str(), ".");
    concat(b.as_str(), lib_type.file_ending())
}

/// Where the compiler puts the library `file` built for `triple`.
pub fn lib_path_for_target(target_dir: &str, triple: &str, profile: &str, file: &str) -> (r: String)
    ensures
        r@ == lib_path_of(target_dir@, triple@, profile@, file@),
{
    let a = join(target_dir, triple);
    let b = join(a.as_str(), profile);
    join(b.as_str(), file)
}

/// Where the libraries built for `targets` are, in order.
pub fn lib_paths_for_targets(target_dir: &str, profile: &str, file: &str, targets: &Vec<Target>) -> (r: Vec<String>)
    ensures
        strs(r@) == lib_paths_of(target_dir@, profile@, file@, targets@),
{
    let mut r: Vec<String> = Vec::new();
    let mut i: usize = 0;
    while i < targets.len()
        invariant
            i <= targets@.len(),
            strs(r@) == lib_paths_of(target_dir@, profile@, file@, targets@.subrange(0, i as int)),
        decreases targets@.len() - i,
    {
        let p = lib_path_for_target(target_dir, targets[i].as_str(), profile, file);
        push_string(&mut r, p);
        i = i + 1;
        assert(strs(r@) =~= lib_paths_of(target_dir@, profile@, file@, targets@.subrange(0, i as int)));
    }
    assert(targets@.subrange(0, targets@.len() as int) =~= targets@);
    r
}

/// The platforms of a run, each with the libraries it is made from: macOS
/// from the macOS triples where it is on, then the iOS device from the iOS
/// triples where iOS is on, then the iOS simulator from the simulator
/// triples where simulators are on too.
pub open spec fn platform_groups_of(c: XCFrameworkConfiguration, target_dir: Seq<char>, profile: Seq<char>, file: Seq<char>) -> Seq<(ApplePlatform, Seq<Seq<char>>)> {
    (if c.macOS {
        seq![(ApplePlatform::MacOS, lib_paths_of(target_dir, profile, file, c.macOS_targets@))]
    } else {
        seq![]
    }) + (if c.iOS {
        seq![(ApplePlatform::IOS(Environment::Device), lib_paths_of(target_dir, profile, file, c.iOS_targets@))]
            + if c.simulators {
            seq![(ApplePlatform::IOS(Environment::Simulator), lib_paths_of(target_dir, profile, file, c.iOS_simulator_targets@))]
        } else {
            seq![]
        }
    } else {
        seq![]
    })
}

/// The platform groups of a run's configuration.
pub open spec fn run_groups(c: Configuration) -> Seq<(ApplePlatform, Seq<Seq<char>>)> {
    platform_groups_of(c.cargo_section, c.target_dir@, profile_of(c.cli), lib_file_name_of(c.lib_name@, c.lib_type))
}

/// The platforms of a run, each with the paths of the libraries that the
/// compiler builds for it.
pub fn platform_library_paths(conf: &Configuration) -> (r: Vec<(ApplePlatform, Vec<String>)>)
    ensures
        crate::lipo::groups_view(r@) == run_groups(*conf),
{
    let file = lib_file_name(conf.lib_name.as_str(), conf.lib_type);
    let profile = conf.profile();
    let td = conf.target_dir.as_str();
    let section = &conf.cargo_section;
    let mut r: Vec<(ApplePlatform, Vec<String>)> = Vec::new();
    let ghost g = crate::lipo::groups_view(r@);
    assert(g =~= seq![]);
    if section.macOS {
        let paths = lib_paths_for_targets(td, profile, file.as_str(), &section.macOS_targets);
        let ghost pv = strs(paths@);
        r.push((ApplePlatform::MacOS, paths));
        assert(crate::lipo::groups_view(r@) =~= g.push((ApplePlatform::MacOS, pv)));
    }
    let ghost g1 = crate::lipo::groups_view(r@);
    if section.iOS {
        let paths = lib_paths_for_targets(td, profile, file.as_str(), &section.iOS_targets);
        let ghost pv = strs(paths@);
        r.push((ApplePlatform::IOS(Environment::Device), paths));
        assert(crate::lipo::groups_view(r@) =~= g1.push((ApplePlatform::IOS(Environment::Device), pv)));
        let ghost g2 = crate::lipo::groups_view(r@);
        if section.simulators {
            let paths = lib_paths_for_targets(td, profile, file.as_str(), &section.iOS_simulator_targets);
            let ghost pv = strs(paths@);
            r.push((ApplePlatform::IOS(Environment::Simulator), paths));
            assert(crate::lipo::groups_view(r@) =~= g2.push((ApplePlatform::IOS(Environment::Simulator), pv)));
        }
    }
    assert(crate::lipo::groups_view(r@) =~= run_groups(*conf));
    r
}

/// `x` where `cond` holds, else nothing.
pub open spec fn when(cond: bool, x: Seq<char>) -> Seq<Seq<char>> {
    if cond {
        seq![x]
    } else {
        seq![]
    }
}

/// `prefix` and the value, where there is one.
pub open spec fn flag_value(prefix: Seq<char>, v: Option<String>) -> Seq<Seq<char>> {
    match v {
        Some(x) => seq![prefix + x@],
        None => seq![],
    }
}

/// `x`, `n` times.
pub open spec fn repeated(x: Seq<char>, n: nat) -> Seq<Seq<char>>
    decreases n,
{
    if n == 0 {
        seq![]
    } else {
        repeated(x, (n - 1) as nat).push(x)
    }
}

/// The items of `fs` separated by commas.
pub open spec fn comma_joined(fs: Seq<Seq<char>>) -> Seq<char>
    decreases fs.len(),
{
    if fs.len() == 0 {
        seq![]
    } else if fs.len() == 1 {
        fs[0]
    } else {
        comma_joined(fs.drop_last()) + ","@ + fs.last()
    }
}

/// The `--target=<triple>` argument of each of `ts`.
pub open spec fn target_args(ts: Seq<Target>) -> Seq<Seq<char>> {
    ts.map_values(|t: Target| "--target="@ + triple_of(t))
}

/// The arguments of the one compiler invocation of a run: `build` with
/// colour, then each option of the command line that is set, then one
/// `--target` for every selected triple.
pub open spec fn cargo_args_of(c: Configuration) -> Seq<Seq<char>> {
    let cli = c.cli;
    seq!["build"@, "--color=always"@] + when(c.target_dir@ != "target"@, "--target-dir="@ + c.target_dir@)
        + flag_value("--manifest-path="@, cli.manifest_path) + when(cli.quiet, "--quiet"@)
        + flag_value("--package="@, cli.package) + repeated("-v"@, cli.verbose as nat)
        + flag_value("-Z="@, cli.unstable_flags) + when(cli.release, "--release"@)
        + flag_value("--profile="@, cli.profile)
        + when(cli.features@.len() > 0, "--features="@ + comma_joined(strs(cli.features@)))
        + when(cli.all_features, "--all-features"@)
        + when(cli.no_default_features, "--no-default-features"@)
        + target_args(chosen_of(c.cargo_section))
}

fn push_when(v: &mut Vec<String>, cond: bool, x: &str)
    ensures
        strs(final(v)@) == strs(old(v)@) + when(cond, x@),
{
    if cond {
        push_string(v, String::from_str(x));
    }
    assert(strs(v@) =~= strs(old(v)@) + when(cond, x@));
}

fn push_flag_value(v: &mut Vec<String>, prefix: &str, value: &Option<String>)
    ensures
        strs(final(v)@) == strs(old(v)@) + flag_value(prefix@, *value),
{
    match value {
        Some(x) => push_string(v, concat(prefix, x.as_str())),
        None => {},
    }
    assert(strs(v@) =~= strs(old(v)@) + flag_value(prefix@, *value));
}

/// The items of `fs` separated by commas.
pub fn join_commas(fs: &Vec<String>) -> (r: String)
    ensures
        r@ == comma_joined(strs(fs@)),
{
    let mut r = String::new();
    let mut i: usize = 0;
    while i < fs.len()
        invariant
            i <= fs@.len(),
            r@ == comma_joined(strs(fs@.subrange(0, i as int))),
        decreases fs@.len() - i,
    {
        let ghost prev = strs(fs@.subrange(0, i as int));
        assert(strs(fs@.subrange(0, i + 1)) =~= prev.push(fs@[i as int]@));
        assert(prev.push(fs@[i as int]@).drop_last() =~= prev);
        if i > 0 {
            r.append(",");
        } else {
            assert(prev =~= seq![]);
            assert(r@ =~= seq![]);
        }
        r.append(fs[i].as_str());
        i = i + 1;
    }
    assert(fs@.subrange(0, fs@.len() as int) =~= fs@);
    r
}

/// The arguments of the one compiler invocation that builds every selected
/// triple of a run.
pub fn cargo_build_args(conf: &Configuration) -> (r: Vec<String>)
    ensures
        strs(r@) == cargo_args_of(*conf),
{
    let cli = &conf.cli;
    let mut args: Vec<String> = Vec::new();
    push_string(&mut args, String::from_str("build"));
    push_string(&mut args, String::from_str("--color=always"));
    assert(strs(args@) =~= seq!["build"@, "--color=always"@]);
    let dir_arg = concat("--target-dir=", conf.target_dir.as_str());
    push_when(&mut args, !crate::text::str_eq(conf.target_dir.as_str(), "target"), dir_arg.as_str());
    push_flag_value(&mut args, "--manifest-path=", &cli.manifest_path);
    push_when(&mut args, cli.quiet, "--quiet");
    push_flag_value(&mut args, "--package=", &cli.package);
    let ghost before_v = strs(args@);
    let mut k: u8 = 0;
    while k < cli.verbose
        invariant
            k <= cli.verbose,
            strs(args@) == before_v + repeated("-v"@, k as nat),
        decreases cli.verbose - k,
    {
        push_string(&mut args, String::from_str("-v"));
        k = k + 1;
        assert(strs(args@) =~= before_v + repeated("-v"@, k as nat));
    }
    push_flag_value(&mut args, "-Z=", &cli.unstable_flags);
    push_when(&mut args, cli.release, "--release");
    push_flag_value(&mut args, "--profile=", &cli.profile);
    let features = join_commas(&cli.features);
    let feature_arg = concat("--features=", features.as_str());
    push_when(&mut args, cli.features.len() > 0, feature_arg.as_str());
    push_when(&mut args, cli.all_features, "--all-features");
    push_when(&mut args, cli.no_default_features, "--no-default-features");
    let targets = conf.cargo_section.chosen_targets();
    let ghost before_t = strs(args@);
    let mut i: usize = 0;
    while i < targets.len()
        invariant
            i <= targets@.len(),
            strs(args@) == before_t + target_args(targets@.subrange(0, i as int)),
        decreases targets@.len() - i,
    {
        push_string(&mut args, concat("--target=", targets[i].as_str()));
        i = i + 1;
        assert(strs(args@) =~= before_t + target_args(targets@.subrange(0, i as int)));
    }
    assert(targets@.subrange(0, targets@.len() as int) =~= targets@);
    assert(strs(args@) =~= cargo_args_of(*conf));
    args
}

/// The libraries of `ts` grouped by platform: the platforms in the order in
/// which they first come, each with the paths of its triples' libraries in
/// the order of the triples.
pub open spec fn grouped(
    ts: Seq<BuildTarget>,
    target_dir: Seq<char>,
    profile: Seq<char>,
    file: Seq<char>,
) -> Seq<(ApplePlatform, Seq<Seq<char>>)>
    decreases ts.len(),
{
    if ts.len() == 0 {
        seq![]
    } else {
        let g = grouped(ts.drop_last(), target_dir, profile, file);
        let t = ts.last();
        let path = lib_path_of(target_dir, t.triple@, profile, file);
        if exists|i: int| 0 <= i < g.len() && g[i].0 == t.platform {
            let i = choose|i: int| 0 <= i < g.len() && g[i].0 == t.platform;
            g.update(i, (t.platform, g[i].1.push(path)))
        } else {
            g.push((t.platform, seq![path]))
        }
    }
}

/// Whether no platform has two groups.
pub open spec fn platforms_unique(g: Seq<(ApplePlatform, Seq<Seq<char>>)>) -> bool {
    forall|i: int, j: int| 0 <= i < j < g.len() ==> g[i].0 != g[j].0
}

/// Where the compiler puts the library `file` of each of `targets`, grouped
/// by platform.
pub fn platform_lib_paths(
    targets: &Vec<BuildTarget>,
    target_dir: &str,
    profile: &str,
    file: &str,
) -> (r: Vec<(ApplePlatform, Vec<String>)>)
    ensures
        crate::lipo::groups_view(r@) == grouped(targets@, target_dir@, profile@, file@),
{
    let mut r: Vec<(ApplePlatform, Vec<String>)> = Vec::new();
    let mut i: usize = 0;
    assert(crate::lipo::groups_view(r@) =~= seq![]);
    while i < targets.len()
        invariant
            i <= targets@.len(),
            crate::lipo::groups_view(r@) == grouped(
                targets@.subrange(0, i as int),
                target_dir@,
                profile@,
                file@,
            ),
            platforms_unique(crate::lipo::groups_view(r@)),
        decreases targets@.len() - i,
    {
        let ghost g = crate::lipo::groups_view(r@);
        assert(targets@.subrange(0, i + 1).drop_last() =~= targets@.subrange(0, i as int));
        let t = &targets[i];
        let path = lib_path_for_target(target_dir, t.triple.as_str(), profile, file);
        let ghost pv = path@;
        let mut k: usize = 0;
        while k < r.len()
            invariant
                k <= r@.len(),
                g == crate::lipo::groups_view(r@),
                forall|j: int| 0 <= j < k ==> g[j].0 != t.platform,
            ensures
                k < r@.len() ==> g[k as int].0 == t.platform,
            decreases r@.len() - k,
        {
            assert(g[k as int].0 == r@[k as int].0);
            if r[k].0 == t.platform {
                break;
            }
            k = k + 1;
        }
        if k < r.len() {
            assert(g[k as int].0 == t.platform);
            let ghost w = choose|j: int| 0 <= j < g.len() && g[j].0 == t.platform;
            assert(w == k);
            let (p, mut paths) = r.remove(k);
            let ghost old_paths = strs(paths@);
            assert(old_paths == g[k as int].1);
            push_string(&mut paths, path);
            let ghost entry = (p, strs(paths@));
            r.insert(k, (p, paths));
            assert(crate::lipo::groups_view(r@) =~= g.update(k as int, (t.platform, g[k as int].1.push(pv))));
        } else {
            let mut paths: Vec<String> = Vec::new();
            assert(strs(paths@) =~= seq![]);
            push_string(&mut paths, path);
            let ghost fresh = strs(paths@);
            r.push((t.platform, paths));
            assert(crate::lipo::groups_view(r@) =~= g.push((t.platform, fresh)));
            assert(fresh =~= seq![pv]);
        }
        i = i + 1;
    }
    assert(targets@.subrange(0, targets@.len() as int) =~= targets@);
    r
}

} // verus!
