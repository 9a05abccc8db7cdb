//! The XCFramework-assembly step: the bundler combines the frameworks into
//! one `.xcframework`, which is then compressed or moved to its place.

use vstd::prelude::*;
use crate::action::{Action, Step, push_string, strs};
use crate::config::opt_view;
use crate::paths::{file_name, file_name_of, join, joined_path};
use crate::text::concat;

verus! {

/// `-framework <path>` for each of `ps`, in order.
pub open spec fn framework_args(ps: Seq<Seq<char>>) -> Seq<Seq<char>>
    decreases ps.len(),
{
    if ps.len() == 0 {
        seq![]
    } else {
        framework_args(ps.drop_last()) + seq!["-framework"@, ps.last()]
    }
}

/// Where the XCFramework of bundle `b` is put together in `dir`.
pub open spec fn xcframework_path(dir: Seq<char>, b: Seq<char>) -> Seq<char> {
    joined_path(dir, b + ".xcframework"@)
}

/// The steps that make the XCFramework of bundle `b` in `dir` from the
/// frameworks `ps`: a stale one is removed, then the bundler runs once.
pub open spec fn xcframework_steps(ps: Seq<Seq<char>>, b: Seq<char>, dir: Seq<char>) -> Seq<Step> {
    let xc = xcframework_path(dir, b);
    seq![
        Step::Remove(xc),
        Step::Run(
            "xcodebuild"@,
            seq!["-create-xcframework"@] + framework_args(ps) + seq!["-output"@, xc],
        ),
    ]
}

/// Plans the XCFramework of `bundle_name` in `output_dir` from the
/// frameworks at `framework_paths`, and gives its path.
pub fn create_xcframework(framework_paths: &Vec<String>, bundle_name: &str, output_dir: &str) -> (r: (
    Vec<Action>,
    String,
))
    ensures
        crate::action::steps(r.0@) == xcframework_steps(strs(framework_paths@), bundle_name@, output_dir@),
        r.1@ == xcframework_path(output_dir@, bundle_name@),
{
    let name = concat(bundle_name, ".xcframework");
    let xc = join(output_dir, name.as_str());
    let mut args: Vec<String> = Vec::new();
    push_string(&mut args, String::from_str("-create-xcframework"));
    let ghost start = strs(args@);
    let mut i: usize = 0;
    while i < framework_paths.len()
        invariant
            i <= framework_paths@.len(),
            strs(args@) == start + framework_args(strs(framework_paths@.subrange(0, i as int))),
        decreases framework_paths@.len() - i,
    {
        let ghost prev = strs(framework_paths@.subrange(0, i as int));
        assert(strs(framework_paths@.subrange(0, i + 1)) =~= prev.push(framework_paths@[i as int]@));
        assert(prev.push(framework_paths@[i as int]@).drop_last() =~= prev);
        push_string(&mut args, String::from_str("-framework"));
        push_string(&mut args, framework_paths[i].clone());
        i = i + 1;
        assert(strs(args@) =~= start + framework_args(strs(framework_paths@.subrange(0, i as int))));
    }
    assert(framework_paths@.subrange(0, framework_paths@.len() as int) =~= framework_paths@);
    push_string(&mut args, String::from_str("-output"));
    push_string(&mut args, xc.clone());
    let ghost xv = xc@;
    let ghost av = strs(args@);
    assert(av =~= seq!["-create-xcframework"@] + framework_args(strs(framework_paths@)) + seq![
        "-output"@,
        xv,
    ]);
    let actions = vec![
        Action::Remove(xc.clone()),
        Action::Run { program: String::from_str("xcodebuild"), args },
    ];
    assert(crate::action::steps(actions@) =~= xcframework_steps(
        strs(framework_paths@),
        bundle_name@,
        output_dir@,
    ));
    (actions, xc)
}

/// The name of the archive of an XCFramework named `name`: `<name>.zip`, or
/// `<prefix>_<name>.zip` with a prefix.
pub open spec fn zip_name_of(name: Seq<char>, prefix: Option<Seq<char>>) -> Seq<char> {
    match prefix {
        Some(p) => p + "_"@ + name + ".zip"@,
        None => name + ".zip"@,
    }
}

/// The steps that compress the XCFramework at `xc` into `dest`: a stale
/// archive is removed, the tree is compressed, and the uncompressed tree
/// removed.
pub open spec fn compress_steps(xc: Seq<char>, dest: Seq<char>) -> Seq<Step> {
    seq![Step::Remove(dest), Step::Zip(xc, dest), Step::Remove(xc)]
}

/// Why an archive could not be planned.
#[derive(Debug, PartialEq, Eq)]
pub enum XcframeworkError {
    /// No name was given, and the path names no file.
    MissingName,
}

/// The name that an archive is made from: the one given, else the file
/// name of the XCFramework's path.
pub open spec fn archive_base(name: Option<Seq<char>>, path: Seq<char>) -> Option<Seq<char>> {
    match name {
        Some(n) => Some(n),
        None => file_name_of(path),
    }
}

/// Plans the compression of the XCFramework at `xcframework_path` into
/// `output_dir`, under `xcframework_name` or else the path's file name, and
/// gives the archive's path.
pub fn compress_xcframework(
    xcframework_name: Option<String>,
    xcframework_path: &str,
    prefix: Option<String>,
    output_dir: &str,
) -> (r: Result<(Vec<Action>, String), XcframeworkError>)
    ensures
        match archive_base(opt_view(xcframework_name), xcframework_path@) {
            None => r == Err::<(Vec<Action>, String), XcframeworkError>(
                XcframeworkError::MissingName,
            ),
            Some(n) => r matches Ok((a, dest)) && dest@ == joined_path(
                output_dir@,
                zip_name_of(n, opt_view(prefix)),
            ) && crate::action::steps(a@) == compress_steps(xcframework_path@, dest@),
        },
{
    let name = match xcframework_name {
        Some(n) => n,
        None => match file_name(xcframework_path) {
            Some(n) => n,
            None => return Err(XcframeworkError::MissingName),
        },
    };
    let zip_name = match &prefix {
        Some(p) => {
            let a = concat(p.as_str(), "_");
            let b = concat(a.as_str(), name.as_str());
            concat(b.as_str(), ".zip")
        },
        None => concat(name.as_str(), ".zip"),
    };
    let dest = join(output_dir, zip_name.as_str());
    let actions = vec![
        Action::Remove(dest.clone()),
        Action::Zip { source: String::from_str(xcframework_path), dest: dest.clone() },
        Action::Remove(String::from_str(xcframework_path)),
    ];
    assert(crate::action::steps(actions@) =~= compress_steps(xcframework_path@, dest@));
    Ok((actions, dest))
}

} // verus!
