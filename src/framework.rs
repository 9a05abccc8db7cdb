//! The framework-wrapping step: a `.framework` bundle per platform, made of
//! the universal library, an `Info.plist`, the headers and the module map.

use vstd::prelude::*;
use crate::action::{
    Action, Step, append_actions, lemma_runs_of_concat, lemma_runs_of_single, lemma_strs_push,
    runs_of, steps, strs,
};
use crate::config::LibType;
use crate::paths::{file_name, file_name_of, join, joined_path};
use crate::platform::{ApplePlatform, dir_name_of, sdk_name_of};
use crate::plist::{InfoPlistBuilder, plist_text};
use crate::text::concat;

verus! {

/// Why a framework could not be planned.
#[derive(Debug, PartialEq, Eq)]
pub enum FrameworkError {
    /// This header path names no file.
    HeaderWithoutFileName(String),
}

/// Where the framework of platform `p` for bundle `b` goes.
pub open spec fn framework_path(out: Seq<char>, p: ApplePlatform, b: Seq<char>) -> Seq<char> {
    joined_path(joined_path(out, dir_name_of(p)), b + ".framework"@)
}

/// The install name of bundle `b`'s dynamic library.
pub open spec fn install_name(b: Seq<char>) -> Seq<char> {
    "@rpath/"@ + b + ".framework/"@ + b
}

/// The copies of the headers `hs` into `hdir`, each under its file name;
/// none where a header names no file.
pub open spec fn header_copies(hdir: Seq<char>, hs: Seq<Seq<char>>) -> Option<Seq<Step>>
    decreases hs.len(),
{
    if hs.len() == 0 {
        Some(seq![])
    } else {
        match (header_copies(hdir, hs.drop_last()), file_name_of(hs.last())) {
            (Some(prev), Some(n)) => Some(prev.push(Step::Copy(hs.last(), joined_path(hdir, n)))),
            _ => None,
        }
    }
}

/// The steps that make bundle `b`'s framework for platform `p` in `out`,
/// given the copies of its headers: a fresh bundle directory, the
/// `Info.plist` written and converted to binary form in place, the library
/// copied in under the bundle name, its install name rewritten where it is
/// dynamic, the `Headers` and `Modules` directories, the headers, and the
/// module map as `Modules/module.modulemap`.
pub open spec fn framework_steps(
    out: Seq<char>,
    p: ApplePlatform,
    kind: LibType,
    lib: Seq<char>,
    copies: Seq<Step>,
    module: Seq<char>,
    b: Seq<char>,
    sdk_version: Seq<char>,
    min_os: Seq<char>,
) -> Seq<Step> {
    let fw = framework_path(out, p, b);
    let plist = joined_path(fw, "Info.plist"@);
    let bin = joined_path(fw, b);
    let modules = joined_path(fw, "Modules"@);
    seq![
        Step::Remove(fw),
        Step::CreateDir(fw),
        Step::WriteFile(plist, plist_text(b, sdk_name_of(p), sdk_version, min_os)),
        Step::Run("plutil"@, seq!["-convert"@, "binary1"@, "-o"@, plist, plist]),
        Step::Copy(lib, bin),
    ] + (if kind == LibType::CDyLib {
        seq![Step::Run("install_name_tool"@, seq!["-id"@, install_name(b), bin])]
    } else {
        seq![]
    }) + seq![Step::CreateDir(joined_path(fw, "Headers"@)), Step::CreateDir(modules)] + copies
        + seq![Step::Copy(module, joined_path(modules, "module.modulemap"@))]
}

fn copy_headers(headers_dir: &str, header_paths: &Vec<String>) -> (r: Result<
    Vec<Action>,
    FrameworkError,
>)
    ensures
        match header_copies(headers_dir@, strs(header_paths@)) {
            Some(c) => r matches Ok(a) && steps(a@) == c,
            None => r matches Err(FrameworkError::HeaderWithoutFileName(_)),
        },
{
    let mut v: Vec<Action> = Vec::new();
    let mut i: usize = 0;
    assert(steps(v@) =~= seq![]);
    assert(strs(header_paths@.subrange(0, 0)) =~= seq![]);
    while i < header_paths.len()
        invariant
            i <= header_paths@.len(),
            header_copies(headers_dir@, strs(header_paths@.subrange(0, i as int))) == Some(
                steps(v@),
            ),
        decreases header_paths@.len() - i,
    {
        let ghost prefix = header_paths@.subrange(0, i as int);
        proof {
            lemma_strs_push(prefix, header_paths@[i as int]);
            assert(prefix.push(header_paths@[i as int]) =~= header_paths@.subrange(0, i + 1));
            assert(strs(prefix).push(header_paths@[i as int]@).drop_last() =~= strs(prefix));
        }
        let h = &header_paths[i];
        match file_name(h.as_str()) {
            None => {
                proof {
                    lemma_header_copies_fail(headers_dir@, strs(header_paths@), i as int + 1);
                }
                return Err(FrameworkError::HeaderWithoutFileName(h.clone()));
            },
            Some(n) => {
                let to = join(headers_dir, n.as_str());
                let ghost before = steps(v@);
                v.push(Action::Copy { from: h.clone(), to });
                assert(steps(v@) =~= before.push(Step::Copy(h@, joined_path(headers_dir@, n@))));
            },
        }
        i = i + 1;
    }
    assert(header_paths@.subrange(0, header_paths@.len() as int) =~= header_paths@);
    Ok(v)
}

proof fn lemma_header_copies_fail(hdir: Seq<char>, hs: Seq<Seq<char>>, n: int)
    requires
        0 < n <= hs.len(),
        header_copies(hdir, hs.subrange(0, n)) is None,
    ensures
        header_copies(hdir, hs) is None,
    decreases hs.len() - n,
{
    if n < hs.len() {
        assert(hs.subrange(0, n + 1).drop_last() =~= hs.subrange(0, n));
        lemma_header_copies_fail(hdir, hs, n + 1);
    } else {
        assert(hs.subrange(0, n) =~= hs);
    }
}

/// Owned copies of `parts`.
pub fn strings_of(parts: &[&str]) -> (r: Vec<String>)
    ensures
        strs(r@) == parts@.map_values(|p: &str| p@),
{
    let mut r: Vec<String> = Vec::new();
    let mut i: usize = 0;
    while i < parts.len()
        invariant
            i <= parts@.len(),
            strs(r@) == parts@.subrange(0, i as int).map_values(|p: &str| p@),
        decreases parts@.len() - i,
    {
        let ghost before = r@;
        r.push(String::from_str(parts[i]));
        proof {
            lemma_strs_push(before, r@.last());
        }
        i = i + 1;
        assert(strs(r@) =~= parts@.subrange(0, i as int).map_values(|p: &str| p@));
    }
    assert(parts@.subrange(0, parts@.len() as int) =~= parts@);
    r
}

/// Plans the framework of `bundle_name` for `platform` in `output_dir`, and
/// gives its path.
pub fn wrap_as_framework(
    platform: ApplePlatform,
    lib_type: LibType,
    lib_path: &str,
    header_paths: &Vec<String>,
    modulemap_path: &str,
    bundle_name: &str,
    output_dir: &str,
    sdk_version: &str,
    min_os_version: &str,
) -> (r: Result<(Vec<Action>, String), FrameworkError>)
    ensures
        ({
            let fw = framework_path(output_dir@, platform, bundle_name@);
            match header_copies(joined_path(fw, "Headers"@), strs(header_paths@)) {
                Some(c) => r matches Ok((a, path)) && path@ == fw && steps(a@) == framework_steps(
                    output_dir@,
                    platform,
                    lib_type,
                    lib_path@,
                    c,
                    modulemap_path@,
                    bundle_name@,
                    sdk_version@,
                    min_os_version@,
                ),
                None => r matches Err(FrameworkError::HeaderWithoutFileName(_)),
            }
        }),
{
    let platform_dir = join(output_dir, platform.dir_name());
    let bundle_dir_name = concat(bundle_name, ".framework");
    let fw = join(platform_dir.as_str(), bundle_dir_name.as_str());
    let plist_path = join(fw.as_str(), "Info.plist");
    let bin = join(fw.as_str(), bundle_name);
    let headers_dir = join(fw.as_str(), "Headers");
    let modules_dir = join(fw.as_str(), "Modules");
    let copies = match copy_headers(headers_dir.as_str(), header_paths) {
        Ok(c) => c,
        Err(e) => return Err(e),
    };
    let ghost copy_steps = steps(copies@);
    let plist = InfoPlistBuilder::new(bundle_name, platform);
    let text = plist.render(sdk_version, min_os_version);
    let plutil_args = strings_of(
        &["-convert", "binary1", "-o", plist_path.as_str(), plist_path.as_str()],
    );
    let ghost fwv = fw@;
    let ghost plist_v = plist_path@;
    let ghost bin_v = bin@;
    let ghost hdir_v = headers_dir@;
    let ghost mdir_v = modules_dir@;
    assert(fwv == framework_path(output_dir@, platform, bundle_name@));
    let ghost text_v = text@;
    let ghost plutil_v = strs(plutil_args@);
    assert(plutil_v =~= seq!["-convert"@, "binary1"@, "-o"@, plist_v, plist_v]);
    let mut actions = vec![
        Action::Remove(fw.clone()),
        Action::CreateDir(fw.clone()),
        Action::WriteFile { path: plist_path.clone(), contents: text },
        Action::Run { program: String::from_str("plutil"), args: plutil_args },
        Action::Copy { from: String::from_str(lib_path), to: bin.clone() },
    ];
    let ghost head = steps(actions@);
    assert(head =~= seq![
        Step::Remove(fwv),
        Step::CreateDir(fwv),
        Step::WriteFile(plist_v, text_v),
        Step::Run("plutil"@, plutil_v),
        Step::Copy(lib_path@, bin_v),
    ]);
    if lib_type == LibType::CDyLib {
        let a = concat("@rpath/", bundle_dir_name.as_str());
        let b = concat(a.as_str(), "/");
        let id = concat(b.as_str(), bundle_name);
        assert(id@ =~= install_name(bundle_name@)) by {
            assert(bundle_dir_name@ == bundle_name@ + ".framework"@);
            reveal_strlit("/");
            reveal_strlit(".framework");
            reveal_strlit(".framework/");
            assert(".framework"@ + "/"@ =~= ".framework/"@);
        }
        let args = strings_of(&["-id", id.as_str(), bin.as_str()]);
        let ghost args_v = strs(args@);
        assert(args_v =~= seq!["-id"@, install_name(bundle_name@), bin_v]);
        actions.push(Action::Run { program: String::from_str("install_name_tool"), args });
        assert(steps(actions@) =~= head.push(Step::Run("install_name_tool"@, args_v)));
    } else {
        assert(steps(actions@) =~= head + seq![]);
    }
    let ghost with_id = steps(actions@);
    actions.push(Action::CreateDir(headers_dir));
    actions.push(Action::CreateDir(modules_dir.clone()));
    let ghost with_dirs = steps(actions@);
    assert(with_dirs =~= with_id + seq![Step::CreateDir(hdir_v), Step::CreateDir(mdir_v)]);
    append_actions(&mut actions, copies);
    let module_dest = join(modules_dir.as_str(), "module.modulemap");
    let ghost dest_v = module_dest@;
    let ghost with_copies = steps(actions@);
    actions.push(Action::Copy { from: String::from_str(modulemap_path), to: module_dest });
    assert(steps(actions@) =~= with_copies.push(Step::Copy(modulemap_path@, dest_v)));
    assert(steps(actions@) =~= framework_steps(
        output_dir@,
        platform,
        lib_type,
        lib_path@,
        copy_steps,
        modulemap_path@,
        bundle_name@,
        sdk_version@,
        min_os_version@,
    ));
    Ok((actions, fw))
}

proof fn lemma_copies_run_nothing(hdir: Seq<char>, hs: Seq<Seq<char>>, program: Seq<char>)
    requires
        header_copies(hdir, hs) is Some,
    ensures
        runs_of(header_copies(hdir, hs)->Some_0, program) == 0,
    decreases hs.len(),
{
    if hs.len() > 0 {
        lemma_copies_run_nothing(hdir, hs.drop_last(), program);
        let prev = header_copies(hdir, hs.drop_last())->Some_0;
        let n = file_name_of(hs.last())->Some_0;
        let x = Step::Copy(hs.last(), joined_path(hdir, n));
        assert(prev.push(x).drop_last() =~= prev);
    }
}

/// A framework of a dynamic library has its install name rewritten exactly
/// once; one of a static library never.
pub proof fn lemma_install_name_rewrites(
    out: Seq<char>,
    p: ApplePlatform,
    kind: LibType,
    lib: Seq<char>,
    headers: Seq<Seq<char>>,
    module: Seq<char>,
    b: Seq<char>,
    sdk_version: Seq<char>,
    min_os: Seq<char>,
)
    requires
        header_copies(joined_path(framework_path(out, p, b), "Headers"@), headers) is Some,
    ensures
        runs_of(
            framework_steps(
                out,
                p,
                kind,
                lib,
                header_copies(joined_path(framework_path(out, p, b), "Headers"@), headers)->Some_0,
                module,
                b,
                sdk_version,
                min_os,
            ),
            "install_name_tool"@,
        ) == if kind == LibType::CDyLib {
            1nat
        } else {
            0nat
        },
{
    let tool = "install_name_tool"@;
    let fw = framework_path(out, p, b);
    let plist = joined_path(fw, "Info.plist"@);
    let bin = joined_path(fw, b);
    let modules = joined_path(fw, "Modules"@);
    let copies = header_copies(joined_path(fw, "Headers"@), headers)->Some_0;
    let s0 = Step::Remove(fw);
    let s1 = Step::CreateDir(fw);
    let s2 = Step::WriteFile(plist, plist_text(b, sdk_name_of(p), sdk_version, min_os));
    let s3 = Step::Run("plutil"@, seq!["-convert"@, "binary1"@, "-o"@, plist, plist]);
    let s4 = Step::Copy(lib, bin);
    let rw = if kind == LibType::CDyLib {
        seq![Step::Run(tool, seq!["-id"@, install_name(b), bin])]
    } else {
        seq![]
    };
    let dirs = seq![Step::CreateDir(joined_path(fw, "Headers"@)), Step::CreateDir(modules)];
    let last = seq![Step::Copy(module, joined_path(modules, "module.modulemap"@))];
    let head = seq![s0, s1, s2, s3, s4];
    reveal_strlit("plutil");
    reveal_strlit("install_name_tool");
    assert("plutil"@.len() != tool.len());
    assert(head =~= seq![s0] + seq![s1] + seq![s2] + seq![s3] + seq![s4]);
    lemma_runs_of_single(s0, tool);
    lemma_runs_of_single(s1, tool);
    lemma_runs_of_single(s2, tool);
    lemma_runs_of_single(s3, tool);
    lemma_runs_of_single(s4, tool);
    lemma_runs_of_concat(seq![s0], seq![s1], tool);
    lemma_runs_of_concat(seq![s0] + seq![s1], seq![s2], tool);
    lemma_runs_of_concat(seq![s0] + seq![s1] + seq![s2], seq![s3], tool);
    lemma_runs_of_concat(seq![s0] + seq![s1] + seq![s2] + seq![s3], seq![s4], tool);
    assert(runs_of(head, tool) == 0);
    if kind == LibType::CDyLib {
        lemma_runs_of_single(Step::Run(tool, seq!["-id"@, install_name(b), bin]), tool);
    }
    assert(runs_of(rw, tool) == if kind == LibType::CDyLib {
        1nat
    } else {
        0nat
    });
    assert(dirs =~= seq![dirs[0]] + seq![dirs[1]]);
    lemma_runs_of_single(dirs[0], tool);
    lemma_runs_of_single(dirs[1], tool);
    lemma_runs_of_concat(seq![dirs[0]], seq![dirs[1]], tool);
    lemma_runs_of_single(last[0], tool);
    lemma_copies_run_nothing(joined_path(fw, "Headers"@), headers, tool);
    lemma_runs_of_concat(head, rw, tool);
    lemma_runs_of_concat(head + rw, dirs, tool);
    lemma_runs_of_concat(head + rw + dirs, copies, tool);
    lemma_runs_of_concat(head + rw + dirs + copies, last, tool);
    assert(framework_steps(out, p, kind, lib, copies, module, b, sdk_version, min_os) == head + rw
        + dirs + copies + last);
}

} // verus!
