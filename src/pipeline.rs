//! The whole run as one plan: build every triple, make the universal
//! libraries, wrap each as a framework, assemble the XCFramework, then
//! compress or move it, starting and ending with a clean build directory.

use vstd::prelude::*;
use crate::action::{Action, Step, append_actions, steps, strs};
use crate::builder::{cargo_args_of, cargo_build_args, lib_file_name, lib_file_name_of, platform_library_paths, run_groups};
use crate::config::LibType;
use crate::configuration::Configuration;
use crate::framework::{FrameworkError, framework_path, framework_steps, header_copies, wrap_as_framework};
use crate::lipo::{LipoPlan, libs_view, lipo_create_platform_libraries, lipo_outputs, lipo_steps};
use crate::modulemap::{ModuleMapError, filter_by_extension, select_modulemap, with_extension};
use crate::paths::{join, joined_path};
use crate::platform::ApplePlatform;
use crate::text::concat;
use crate::xcframework::{XcframeworkError, compress_steps, compress_xcframework, create_xcframework, xcframework_path, xcframework_steps, zip_name_of};

verus! {

/// The SDK version and minimum OS version to write into one platform's
/// `Info.plist`.
#[derive(Debug, Clone)]
pub struct PlatformVersions {
    pub platform: ApplePlatform,
    pub sdk_version: String,
    pub min_os_version: String,
}

/// What a run produces: the module name, where the result is, and whether
/// it is an archive.
#[derive(Debug, Clone, PartialEq, Eq)]
pub struct Produced {
    pub module_name: String,
    pub path: String,
    pub is_zipped: bool,
}

/// The steps of a run, and what they produce.
#[derive(Debug)]
pub struct BuildPlan {
    pub actions: Vec<Action>,
    pub produced: Produced,
}

/// Why a run could not be planned.
#[derive(Debug, PartialEq, Eq)]
pub enum PipelineError {
    /// The module name has not been read yet.
    NoModuleName,
    /// The include directory holds no module map, or several.
    ModuleMap(ModuleMapError),
    /// No versions were given for this platform.
    MissingVersions(ApplePlatform),
    /// A framework could not be planned.
    Framework(FrameworkError),
    /// The archive could not be named.
    Archive(XcframeworkError),
}

/// Why a run could not be planned, as a value.
pub enum PlanFailure {
    NoModuleName,
    ModuleMap(ModuleMapError),
    MissingVersions(ApplePlatform),
    HeaderWithoutFileName,
    ArchiveName,
}

pub open spec fn failure_of(e: PipelineError) -> PlanFailure {
    match e {
        PipelineError::NoModuleName => PlanFailure::NoModuleName,
        PipelineError::ModuleMap(m) => PlanFailure::ModuleMap(m),
        PipelineError::MissingVersions(p) => PlanFailure::MissingVersions(p),
        PipelineError::Framework(_) => PlanFailure::HeaderWithoutFileName,
        PipelineError::Archive(_) => PlanFailure::ArchiveName,
    }
}

/// The versions given first for platform `p`.
pub open spec fn versions_for(vs: Seq<PlatformVersions>, p: ApplePlatform) -> Option<(Seq<char>, Seq<char>)>
    decreases vs.len(),
{
    if vs.len() == 0 {
        None
    } else {
        match versions_for(vs.drop_last(), p) {
            Some(x) => Some(x),
            None => if vs.last().platform == p {
                Some((vs.last().sdk_version@, vs.last().min_os_version@))
            } else {
                None
            },
        }
    }
}

/// The steps that make a framework for each universal library of `outs`,
/// platform by platform, and the frameworks' paths.
pub open spec fn frameworks_plan(
    fdir: Seq<char>,
    b: Seq<char>,
    kind: LibType,
    outs: Seq<(ApplePlatform, Seq<char>)>,
    headers: Seq<Seq<char>>,
    mm: Seq<char>,
    vs: Seq<PlatformVersions>,
) -> Result<(Seq<Step>, Seq<Seq<char>>), PlanFailure>
    decreases outs.len(),
{
    if outs.len() == 0 {
        Ok((seq![], seq![]))
    } else {
        match frameworks_plan(fdir, b, kind, outs.drop_last(), headers, mm, vs) {
            Err(e) => Err(e),
            Ok((st, ps)) => {
                let p = outs.last().0;
                let fw = framework_path(fdir, p, b);
                match versions_for(vs, p) {
                    None => Err(PlanFailure::MissingVersions(p)),
                    Some((sdk, min_os)) => match header_copies(joined_path(fw, "Headers"@), headers) {
                        None => Err(PlanFailure::HeaderWithoutFileName),
                        Some(c) => Ok(
                            (
                                st + framework_steps(fdir, p, kind, outs.last().1, c, mm, b, sdk, min_os),
                                ps.push(fw),
                            ),
                        ),
                    },
                }
            },
        }
    }
}

/// The steps that put the XCFramework at `xc` in its place in `target_dir`,
/// and where it ends up: an archive `<b>.xcframework.zip` where `zip` is
/// on, else the directory `<b>.xcframework`.
pub open spec fn finish_steps(xc: Seq<char>, b: Seq<char>, target_dir: Seq<char>, zip: bool) -> (Seq<Step>, Seq<char>) {
    if zip {
        let dest = joined_path(target_dir, zip_name_of(b + ".xcframework"@, None));
        (compress_steps(xc, dest), dest)
    } else {
        let to = joined_path(target_dir, b + ".xcframework"@);
        (seq![Step::Remove(to), Step::Move(xc, to)], to)
    }
}

/// The steps of a whole run of configuration `c` over the files `files` of
/// its include directory, and where the result ends up.
pub open spec fn pipeline_plan(c: Configuration, files: Seq<String>, vs: Seq<PlatformVersions>) -> Result<(Seq<Step>, Seq<char>), PlanFailure> {
    let found = with_extension(files, "modulemap"@);
    match c.known_module_name() {
        None => Err(PlanFailure::NoModuleName),
        Some(b) => if found.len() == 0 {
            Err(PlanFailure::ModuleMap(ModuleMapError::NotFound))
        } else if found.len() > 1 {
            Err(PlanFailure::ModuleMap(ModuleMapError::Ambiguous(found.len() as usize)))
        } else {
            let headers = strs(with_extension(files, "h"@));
            let groups = run_groups(c);
            let libs_dir = joined_path(c.build_dir@, "libs"@);
            let libname = lib_file_name_of(c.lib_name@, c.lib_type);
            let outs = lipo_outputs(libs_dir, libname, groups);
            let fdir = joined_path(c.target_dir@, "frameworks"@);
            match frameworks_plan(fdir, b, c.lib_type, outs, headers, found[0]@, vs) {
                Err(e) => Err(e),
                Ok((fs, ps)) => {
                    let xc = xcframework_path(c.build_dir@, b);
                    let fin = finish_steps(xc, b, c.target_dir@, c.cargo_section.zip);
                    Ok(
                        (
                            seq![Step::Remove(c.build_dir@), Step::Run("cargo"@, cargo_args_of(c))]
                                + seq![Step::CreateDir(libs_dir)] + lipo_steps(libs_dir, libname, groups)
                                + seq![Step::CreateDir(fdir)] + fs + xcframework_steps(ps, b, c.build_dir@)
                                + fin.0 + seq![Step::Remove(c.build_dir@)],
                            fin.1,
                        ),
                    )
                },
            }
        },
    }
}

fn lookup_versions(vs: &Vec<PlatformVersions>, p: ApplePlatform) -> (r: Option<(String, String)>)
    ensures
        match versions_for(vs@, p) {
            Some((a, b)) => r matches Some((x, y)) && x@ == a && y@ == b,
            None => r is None,
        },
{
    let mut i: usize = 0;
    while i < vs.len()
        invariant
            i <= vs@.len(),
            versions_for(vs@.subrange(0, i as int), p) is None,
        decreases vs@.len() - i,
    {
        assert(vs@.subrange(0, i + 1).drop_last() =~= vs@.subrange(0, i as int));
        if vs[i].platform == p {
            proof {
                lemma_versions_for_extends(vs@, p, i as int + 1);
            }
            return Some((vs[i].sdk_version.clone(), vs[i].min_os_version.clone()));
        }
        i = i + 1;
    }
    assert(vs@.subrange(0, vs@.len() as int) =~= vs@);
    None
}

proof fn lemma_versions_for_extends(vs: Seq<PlatformVersions>, p: ApplePlatform, n: int)
    requires
        0 < n <= vs.len(),
        versions_for(vs.subrange(0, n), p) is Some,
    ensures
        versions_for(vs, p) == versions_for(vs.subrange(0, n), p),
    decreases vs.len() - n,
{
    if n < vs.len() {
        assert(vs.subrange(0, n + 1).drop_last() =~= vs.subrange(0, n));
        lemma_versions_for_extends(vs, p, n + 1);
    } else {
        assert(vs.subrange(0, n) =~= vs);
    }
}

proof fn lemma_frameworks_plan_fails(
    fdir: Seq<char>,
    b: Seq<char>,
    kind: LibType,
    outs: Seq<(ApplePlatform, Seq<char>)>,
    headers: Seq<Seq<char>>,
    mm: Seq<char>,
    vs: Seq<PlatformVersions>,
    n: int,
)
    requires
        0 < n <= outs.len(),
        frameworks_plan(fdir, b, kind, outs.subrange(0, n), headers, mm, vs) is Err,
    ensures
        frameworks_plan(fdir, b, kind, outs, headers, mm, vs) == frameworks_plan(
            fdir,
            b,
            kind,
            outs.subrange(0, n),
            headers,
            mm,
            vs,
        ),
    decreases outs.len() - n,
{
    if n < outs.len() {
        assert(outs.subrange(0, n + 1).drop_last() =~= outs.subrange(0, n));
        lemma_frameworks_plan_fails(fdir, b, kind, outs, headers, mm, vs, n + 1);
    } else {
        assert(outs.subrange(0, n) =~= outs);
    }
}

fn plan_frameworks(
    fdir: &str,
    bundle_name: &str,
    kind: LibType,
    libs: &Vec<(ApplePlatform, String)>,
    headers: &Vec<String>,
    mm: &str,
    vs: &Vec<PlatformVersions>,
) -> (r: Result<(Vec<Action>, Vec<String>), PipelineError>)
    ensures
        match frameworks_plan(fdir@, bundle_name@, kind, libs_view(libs@), strs(headers@), mm@, vs@) {
            Ok((st, ps)) => r matches Ok((a, p)) && steps(a@) == st && strs(p@) == ps,
            Err(f) => r matches Err(e) && failure_of(e) == f,
        },
{
    let ghost outs = libs_view(libs@);
    let ghost hs = strs(headers@);
    let mut actions: Vec<Action> = Vec::new();
    let mut paths: Vec<String> = Vec::new();
    assert(steps(actions@) =~= seq![]);
    assert(strs(paths@) =~= seq![]);
    let mut i: usize = 0;
    while i < libs.len()
        invariant
            i <= libs@.len(),
            outs == libs_view(libs@),
            hs == strs(headers@),
            frameworks_plan(fdir@, bundle_name@, kind, outs.subrange(0, i as int), hs, mm@, vs@)
                == Ok::<(Seq<Step>, Seq<Seq<char>>), PlanFailure>((steps(actions@), strs(paths@))),
        decreases libs@.len() - i,
    {
        let ghost sub = outs.subrange(0, i + 1);
        assert(sub.drop_last() =~= outs.subrange(0, i as int));
        assert(sub.last() == outs[i as int]);
        let (p, lib) = &libs[i];
        assert(outs[i as int] == (*p, lib@));
        let (sdk, min_os) = match lookup_versions(vs, *p) {
            Some(x) => x,
            None => {
                proof {
                    lemma_frameworks_plan_fails(fdir@, bundle_name@, kind, outs, hs, mm@, vs@, i + 1);
                }
                return Err(PipelineError::MissingVersions(*p));
            },
        };
        match wrap_as_framework(
            *p,
            kind,
            lib.as_str(),
            headers,
            mm,
            bundle_name,
            fdir,
            sdk.as_str(),
            min_os.as_str(),
        ) {
            Err(e) => {
                proof {
                    lemma_frameworks_plan_fails(fdir@, bundle_name@, kind, outs, hs, mm@, vs@, i + 1);
                }
                return Err(PipelineError::Framework(e));
            },
            Ok((more, fw)) => {
                let ghost fwv = fw@;
                let ghost old_paths = paths@;
                append_actions(&mut actions, more);
                paths.push(fw);
                proof {
                    crate::action::lemma_strs_push(old_paths, paths@.last());
                }
                assert(strs(paths@) == strs(old_paths).push(fwv));
            },
        }
        i = i + 1;
    }
    assert(outs.subrange(0, libs@.len() as int) =~= outs);
    Ok((actions, paths))
}

/// Plans a whole run of `conf` over the files `include_files` of its
/// include directory, with each platform's versions taken from `versions`.
pub fn build(
    conf: &Configuration,
    include_files: &Vec<String>,
    versions: &Vec<PlatformVersions>,
) -> (r: Result<BuildPlan, PipelineError>)
    ensures
        match pipeline_plan(*conf, include_files@, versions@) {
            Ok((st, path)) => r matches Ok(plan) && steps(plan.actions@) == st && plan.produced.path@
                == path && conf.known_module_name() == Some(plan.produced.module_name@)
                && plan.produced.is_zipped == conf.cargo_section.zip,
            Err(f) => r matches Err(e) && failure_of(e) == f,
        },
{
    let bundle_name = match conf.module_name() {
        Some(n) => n,
        None => return Err(PipelineError::NoModuleName),
    };
    let b = bundle_name.as_str();
    let modulemap = match select_modulemap(include_files) {
        Ok(m) => m,
        Err(e) => return Err(PipelineError::ModuleMap(e)),
    };
    let headers = filter_by_extension(include_files, "h");
    let ghost bv = b@;
    let ghost found = with_extension(include_files@, "modulemap"@);
    assert(modulemap@ == found[0]@);
    let build_dir = conf.build_dir.as_str();
    let cargs = cargo_build_args(conf);
    let ghost cv = strs(cargs@);
    let mut actions: Vec<Action> = Vec::new();
    actions.push(Action::Remove(conf.build_dir.clone()));
    actions.push(Action::Run { program: String::from_str("cargo"), args: cargs });
    let ghost s0 = steps(actions@);
    assert(s0 =~= seq![Step::Remove(build_dir@), Step::Run("cargo"@, cargo_args_of(*conf))]);
    let groups = platform_library_paths(conf);
    let libs_dir = join(build_dir, "libs");
    let libname = lib_file_name(conf.lib_name.as_str(), conf.lib_type);
    let lipo = lipo_create_platform_libraries(&groups, libname.as_str(), libs_dir.as_str());
    let ghost la = steps(lipo.actions@);
    let LipoPlan { actions: lipo_actions, libraries } = lipo;
    append_actions(&mut actions, lipo_actions);
    let ghost s1 = steps(actions@);
    assert(s1 == s0 + la);
    let fdir = join(conf.target_dir.as_str(), "frameworks");
    let ghost fdv = fdir@;
    actions.push(Action::CreateDir(fdir.clone()));
    let ghost s2 = steps(actions@);
    assert(s2 =~= s1 + seq![Step::CreateDir(fdv)]);
    let (fw_actions, fw_paths) = match plan_frameworks(
        fdir.as_str(),
        b,
        conf.lib_type,
        &libraries,
        &headers,
        modulemap.as_str(),
        versions,
    ) {
        Ok(x) => x,
        Err(e) => return Err(e),
    };
    let ghost fa = steps(fw_actions@);
    append_actions(&mut actions, fw_actions);
    let (xc_actions, xc) = create_xcframework(&fw_paths, b, build_dir);
    let ghost xa = steps(xc_actions@);
    append_actions(&mut actions, xc_actions);
    let ghost s3 = steps(actions@);
    assert(s3 == s2 + fa + xa);
    let ghost xcv = xc@;
    let xc_name = concat(b, ".xcframework");
    let path = if conf.cargo_section.zip {
        let (zip_actions, dest) = match compress_xcframework(
            Some(xc_name),
            xc.as_str(),
            None,
            conf.target_dir.as_str(),
        ) {
            Ok(x) => x,
            Err(e) => return Err(PipelineError::Archive(e)),
        };
        append_actions(&mut actions, zip_actions);
        dest
    } else {
        let to = join(conf.target_dir.as_str(), xc_name.as_str());
        let ghost tv = to@;
        actions.push(Action::Remove(to.clone()));
        actions.push(Action::Move { from: xc, to: to.clone() });
        assert(steps(actions@) =~= s3 + seq![Step::Remove(tv), Step::Move(xcv, tv)]);
        to
    };
    let ghost s4 = steps(actions@);
    actions.push(Action::Remove(conf.build_dir.clone()));
    let ghost fin = finish_steps(xcv, bv, conf.target_dir@, conf.cargo_section.zip);
    assert(path@ == fin.1);
    assert(s4 == s3 + fin.0);
    assert(steps(actions@) =~= s4 + seq![Step::Remove(build_dir@)]);
    assert(steps(actions@) =~= pipeline_plan(*conf, include_files@, versions@)->Ok_0.0);
    Ok(BuildPlan {
        actions,
        produced: Produced { module_name: bundle_name, path, is_zipped: conf.cargo_section.zip },
    })
}

/// A run depends on nothing but its configuration, include files and
/// versions, so two runs on the same ones plan the same steps and the same
/// result. Each plan starts and ends by removing the build directory, and
/// removes the final XCFramework or archive before it writes it there, so
/// what an earlier run left behind does not change what a later one makes.
pub proof fn lemma_pipeline_idempotent(
    c1: Configuration,
    c2: Configuration,
    files: Seq<String>,
    vs: Seq<PlatformVersions>,
)
    requires
        c1 == c2,
        pipeline_plan(c1, files, vs) is Ok,
    ensures
        pipeline_plan(c1, files, vs) == pipeline_plan(c2, files, vs),
        ({
            let (st, path) = pipeline_plan(c1, files, vs)->Ok_0;
            let xc = xcframework_path(c1.build_dir@, c1.known_module_name()->Some_0);
            &&& st[0] == Step::Remove(c1.build_dir@)
            &&& st.last() == Step::Remove(c1.build_dir@)
            &&& exists|i: int, j: int|
                0 <= i < j < st.len() && st[i] == Step::Remove(path) && (st[j] == Step::Zip(xc, path)
                    || st[j] == Step::Move(xc, path))
        }),
{
    let c = c1;
    let b = c.known_module_name()->Some_0;
    let found = with_extension(files, "modulemap"@);
    let headers = strs(with_extension(files, "h"@));
    let groups = run_groups(c);
    let libs_dir = joined_path(c.build_dir@, "libs"@);
    let libname = lib_file_name_of(c.lib_name@, c.lib_type);
    let outs = lipo_outputs(libs_dir, libname, groups);
    let fdir = joined_path(c.target_dir@, "frameworks"@);
    let (fs, ps) = frameworks_plan(fdir, b, c.lib_type, outs, headers, found[0]@, vs)->Ok_0;
    let xc = xcframework_path(c.build_dir@, b);
    let fin = finish_steps(xc, b, c.target_dir@, c.cargo_section.zip);
    let a = seq![Step::Remove(c.build_dir@), Step::Run("cargo"@, cargo_args_of(c))]
        + seq![Step::CreateDir(libs_dir)] + lipo_steps(libs_dir, libname, groups)
        + seq![Step::CreateDir(fdir)] + fs + xcframework_steps(ps, b, c.build_dir@);
    let st = a + fin.0 + seq![Step::Remove(c.build_dir@)];
    assert(pipeline_plan(c1, files, vs)->Ok_0 == (st, fin.1));
    assert(st[0] == Step::Remove(c.build_dir@));
    let i = a.len() as int;
    assert(st[i] == fin.0[0]);
    assert(st[i + 1] == fin.0[1]);
    assert(0 <= i < i + 1 < st.len());
}

/// A run that builds a static library for macOS alone, from two triples,
/// with compression on: it cleans the build directory, builds, merges the
/// two libraries once into `<build>/libs/MacOS/lib<name>.a`, wraps that as
/// `<target>/frameworks/MacOS/<b>.framework` (with its `Info.plist`, the
/// binary, `Headers/` and `Modules/module.modulemap`, and no install-name
/// rewrite), bundles it once into `<build>/<b>.xcframework`, compresses
/// that into `<target>/<b>.xcframework.zip`, removes the uncompressed
/// bundle, and cleans the build directory again.
pub proof fn lemma_macos_static_run(c: Configuration, files: Seq<String>, vs: Seq<PlatformVersions>)
    requires
        c.known_module_name() is Some,
        with_extension(files, "modulemap"@).len() == 1,
        c.cargo_section.macOS,
        !c.cargo_section.iOS,
        c.cargo_section.macOS_targets@.len() == 2,
        c.lib_type == LibType::StaticLib,
        c.cargo_section.zip,
        versions_for(vs, ApplePlatform::MacOS) is Some,
        header_copies(
            joined_path(
                framework_path(
                    joined_path(c.target_dir@, "frameworks"@),
                    ApplePlatform::MacOS,
                    c.known_module_name()->Some_0,
                ),
                "Headers"@,
            ),
            strs(with_extension(files, "h"@)),
        ) is Some,
    ensures
        ({
            let b = c.known_module_name()->Some_0;
            let bd = c.build_dir@;
            let libs_dir = joined_path(bd, "libs"@);
            let libname = lib_file_name_of(c.lib_name@, c.lib_type);
            let inputs = crate::builder::lib_paths_of(
                c.target_dir@,
                crate::configuration::profile_of(c.cli),
                libname,
                c.cargo_section.macOS_targets@,
            );
            let merged = crate::lipo::merged_path(libs_dir, libname, ApplePlatform::MacOS);
            let fdir = joined_path(c.target_dir@, "frameworks"@);
            let fw = framework_path(fdir, ApplePlatform::MacOS, b);
            let (sdk, min_os) = versions_for(vs, ApplePlatform::MacOS)->Some_0;
            let copies = header_copies(joined_path(fw, "Headers"@), strs(with_extension(files, "h"@)))->Some_0;
            let xc = xcframework_path(bd, b);
            let dest = joined_path(c.target_dir@, b + ".xcframework"@ + ".zip"@);
            let fsteps = framework_steps(
                fdir,
                ApplePlatform::MacOS,
                LibType::StaticLib,
                merged,
                copies,
                with_extension(files, "modulemap"@)[0]@,
                b,
                sdk,
                min_os,
            );
            &&& pipeline_plan(c, files, vs) == Ok::<(Seq<Step>, Seq<char>), PlanFailure>(
                (
                    seq![
                        Step::Remove(bd),
                        Step::Run("cargo"@, cargo_args_of(c)),
                        Step::CreateDir(libs_dir),
                        Step::CreateDir(joined_path(libs_dir, "MacOS"@)),
                        Step::Remove(merged),
                        Step::Run("lipo"@, crate::lipo::lipo_args(inputs, merged)),
                        Step::CreateDir(fdir),
                    ] + fsteps + seq![
                        Step::Remove(xc),
                        Step::Run(
                            "xcodebuild"@,
                            seq!["-create-xcframework"@, "-framework"@, fw, "-output"@, xc],
                        ),
                        Step::Remove(dest),
                        Step::Zip(xc, dest),
                        Step::Remove(xc),
                        Step::Remove(bd),
                    ],
                    dest,
                ),
            )
            &&& crate::action::runs_of(fsteps, "install_name_tool"@) == 0
        }),
{
    let b = c.known_module_name()->Some_0;
    let bd = c.build_dir@;
    let libs_dir = joined_path(bd, "libs"@);
    let libname = lib_file_name_of(c.lib_name@, c.lib_type);
    let inputs = crate::builder::lib_paths_of(
        c.target_dir@,
        crate::configuration::profile_of(c.cli),
        libname,
        c.cargo_section.macOS_targets@,
    );
    let groups = run_groups(c);
    assert(groups =~= seq![(ApplePlatform::MacOS, inputs)]);
    assert(groups.drop_last() =~= seq![]);
    let merged = crate::lipo::merged_path(libs_dir, libname, ApplePlatform::MacOS);
    assert(inputs.len() == 2);
    assert(lipo_steps(libs_dir, libname, groups.drop_last()) == Seq::<Step>::empty());
    assert(groups.last() == (ApplePlatform::MacOS, inputs));
    assert(lipo_steps(libs_dir, libname, groups) == Seq::<Step>::empty() + crate::lipo::group_steps(
        libs_dir,
        libname,
        ApplePlatform::MacOS,
        inputs,
    ));
    assert(lipo_steps(libs_dir, libname, groups) =~= seq![
        Step::CreateDir(joined_path(libs_dir, "MacOS"@)),
        Step::Remove(merged),
        Step::Run("lipo"@, crate::lipo::lipo_args(inputs, merged)),
    ]);
    let outs = lipo_outputs(libs_dir, libname, groups);
    assert(outs =~= seq![(ApplePlatform::MacOS, merged)]);
    assert(outs.drop_last() =~= seq![]);
    let fdir = joined_path(c.target_dir@, "frameworks"@);
    let fw = framework_path(fdir, ApplePlatform::MacOS, b);
    let headers = strs(with_extension(files, "h"@));
    let mm = with_extension(files, "modulemap"@)[0]@;
    let (sdk, min_os) = versions_for(vs, ApplePlatform::MacOS)->Some_0;
    let copies = header_copies(joined_path(fw, "Headers"@), headers)->Some_0;
    let fsteps = framework_steps(fdir, ApplePlatform::MacOS, LibType::StaticLib, merged, copies, mm, b, sdk, min_os);
    assert(frameworks_plan(fdir, b, c.lib_type, outs.drop_last(), headers, mm, vs) == Ok::<
        (Seq<Step>, Seq<Seq<char>>),
        PlanFailure,
    >((seq![], seq![])));
    assert(frameworks_plan(fdir, b, c.lib_type, outs, headers, mm, vs) == Ok::<
        (Seq<Step>, Seq<Seq<char>>),
        PlanFailure,
    >((seq![] + fsteps, seq![].push(fw))));
    assert(seq![] + fsteps =~= fsteps);
    assert(seq![].push(fw) =~= seq![fw]);
    assert(seq![fw].drop_last() =~= Seq::<Seq<char>>::empty());
    assert(frameworks_plan(fdir, b, c.lib_type, outs, headers, mm, vs) == Ok::<
        (Seq<Step>, Seq<Seq<char>>),
        PlanFailure,
    >((fsteps, seq![fw])));
    assert(crate::xcframework::framework_args(Seq::<Seq<char>>::empty()) == Seq::<Seq<char>>::empty());
    assert(crate::xcframework::framework_args(seq![fw]) == Seq::<Seq<char>>::empty() + seq![
        "-framework"@,
        fw,
    ]);
    assert(crate::xcframework::framework_args(seq![fw]) =~= seq!["-framework"@, fw]);
    crate::framework::lemma_install_name_rewrites(
        fdir,
        ApplePlatform::MacOS,
        LibType::StaticLib,
        merged,
        headers,
        mm,
        b,
        sdk,
        min_os,
    );
    let xc = xcframework_path(bd, b);
    let dest = joined_path(c.target_dir@, b + ".xcframework"@ + ".zip"@);
    let st = seq![Step::Remove(bd), Step::Run("cargo"@, cargo_args_of(c))]
        + seq![Step::CreateDir(libs_dir)] + lipo_steps(libs_dir, libname, groups)
        + seq![Step::CreateDir(fdir)] + fsteps + xcframework_steps(seq![fw], b, bd)
        + compress_steps(xc, dest) + seq![Step::Remove(bd)];
    assert(zip_name_of(b + ".xcframework"@, None) == b + ".xcframework"@ + ".zip"@);
    assert(finish_steps(xc, b, c.target_dir@, c.cargo_section.zip) == (compress_steps(xc, dest), dest));
    assert(pipeline_plan(c, files, vs) == Ok::<(Seq<Step>, Seq<char>), PlanFailure>((st, dest)));
    assert(seq!["-create-xcframework"@] + crate::xcframework::framework_args(seq![fw]) + seq![
        "-output"@,
        xc,
    ] =~= seq!["-create-xcframework"@, "-framework"@, fw, "-output"@, xc]);
    assert(st =~= seq![
        Step::Remove(bd),
        Step::Run("cargo"@, cargo_args_of(c)),
        Step::CreateDir(libs_dir),
        Step::CreateDir(joined_path(libs_dir, "MacOS"@)),
        Step::Remove(merged),
        Step::Run("lipo"@, crate::lipo::lipo_args(inputs, merged)),
        Step::CreateDir(fdir),
    ] + fsteps + seq![
        Step::Remove(xc),
        Step::Run("xcodebuild"@, seq!["-create-xcframework"@, "-framework"@, fw, "-output"@, xc]),
        Step::Remove(dest),
        Step::Zip(xc, dest),
        Step::Remove(xc),
        Step::Remove(bd),
    ]);
}

} // verus!
