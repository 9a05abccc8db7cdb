//! The universal-library step: one library per platform, merged from the
//! per-architecture libraries where there are several, used as it is where
//! there is one.

use vstd::prelude::*;
use crate::action::{
    Action, Step, append_actions, lemma_runs_of_concat, lemma_strs_push, runs_of, steps, strs,
};
use crate::paths::{join, joined_path};
use crate::platform::{ApplePlatform, dir_name_of};

verus! {

/// A platform's per-architecture library paths, as values.
pub open spec fn groups_view(g: Seq<(ApplePlatform, Vec<String>)>) -> Seq<
    (ApplePlatform, Seq<Seq<char>>),
> {
    g.map_values(|e: (ApplePlatform, Vec<String>)| (e.0, strs(e.1@)))
}

/// Where the merged library of platform `p` goes.
pub open spec fn merged_path(dir: Seq<char>, name: Seq<char>, p: ApplePlatform) -> Seq<char> {
    joined_path(joined_path(dir, dir_name_of(p)), name)
}

/// The arguments of the merge tool that merges `inputs` into `out`.
pub open spec fn lipo_args(inputs: Seq<Seq<char>>, out: Seq<char>) -> Seq<Seq<char>> {
    seq!["-create"@] + inputs + seq!["-output"@, out]
}

/// The steps for one platform: none where it has one library; else its
/// directory, the removal of a stale output, and one run of the merge tool
/// over all its libraries.
pub open spec fn group_steps(
    dir: Seq<char>,
    name: Seq<char>,
    p: ApplePlatform,
    paths: Seq<Seq<char>>,
) -> Seq<Step> {
    if paths.len() == 1 {
        seq![]
    } else {
        seq![
            Step::CreateDir(joined_path(dir, dir_name_of(p))),
            Step::Remove(merged_path(dir, name, p)),
            Step::Run("lipo"@, lipo_args(paths, merged_path(dir, name, p))),
        ]
    }
}

/// The universal library of one platform: its one library, else the
/// merged one.
pub open spec fn group_output(
    dir: Seq<char>,
    name: Seq<char>,
    p: ApplePlatform,
    paths: Seq<Seq<char>>,
) -> Seq<char> {
    if paths.len() == 1 {
        paths[0]
    } else {
        merged_path(dir, name, p)
    }
}

/// The steps for all platforms, platform by platform.
pub open spec fn lipo_steps(
    dir: Seq<char>,
    name: Seq<char>,
    g: Seq<(ApplePlatform, Seq<Seq<char>>)>,
) -> Seq<Step>
    decreases g.len(),
{
    if g.len() == 0 {
        seq![]
    } else {
        lipo_steps(dir, name, g.drop_last()) + group_steps(dir, name, g.last().0, g.last().1)
    }
}

/// The universal library of each platform, in the order of the platforms.
pub open spec fn lipo_outputs(
    dir: Seq<char>,
    name: Seq<char>,
    g: Seq<(ApplePlatform, Seq<Seq<char>>)>,
) -> Seq<(ApplePlatform, Seq<char>)> {
    g.map_values(
        |e: (ApplePlatform, Seq<Seq<char>>)| (e.0, group_output(dir, name, e.0, e.1)),
    )
}

/// The views of a list of platform libraries.
pub open spec fn libs_view(v: Seq<(ApplePlatform, String)>) -> Seq<(ApplePlatform, Seq<char>)> {
    v.map_values(|e: (ApplePlatform, String)| (e.0, e.1@))
}

/// The steps that make the universal libraries, and where each one is.
pub struct LipoPlan {
    pub actions: Vec<Action>,
    pub libraries: Vec<(ApplePlatform, String)>,
}

fn group_actions(dir: &str, name: &str, p: ApplePlatform, paths: &Vec<String>) -> (r: (
    Vec<Action>,
    String,
))
    ensures
        steps(r.0@) == group_steps(dir@, name@, p, strs(paths@)),
        r.1@ == group_output(dir@, name@, p, strs(paths@)),
{
    if paths.len() == 1 {
        let v: Vec<Action> = Vec::new();
        assert(steps(v@) =~= seq![]);
        return (v, paths[0].clone());
    }
    let platform_dir = join(dir, p.dir_name());
    let out = join(platform_dir.as_str(), name);
    let mut args: Vec<String> = Vec::new();
    args.push(String::from_str("-create"));
    let mut i: usize = 0;
    while i < paths.len()
        invariant
            i <= paths@.len(),
            strs(args@) == seq!["-create"@] + strs(paths@.subrange(0, i as int)),
        decreases paths@.len() - i,
    {
        let ghost before = args@;
        args.push(paths[i].clone());
        proof {
            lemma_strs_push(before, paths@[i as int]);
            lemma_strs_push(paths@.subrange(0, i as int), paths@[i as int]);
            assert(paths@.subrange(0, i as int).push(paths@[i as int]) =~= paths@.subrange(
                0,
                i + 1,
            ));
        }
        i = i + 1;
        assert(strs(args@) =~= seq!["-create"@] + strs(paths@.subrange(0, i as int)));
    }
    args.push(String::from_str("-output"));
    args.push(out.clone());
    assert(paths@.subrange(0, paths@.len() as int) =~= paths@);
    assert(strs(args@) =~= lipo_args(strs(paths@), out@));
    let v = vec![
        Action::CreateDir(platform_dir),
        Action::Remove(out.clone()),
        Action::Run { program: String::from_str("lipo"), args },
    ];
    assert(steps(v@) =~= group_steps(dir@, name@, p, strs(paths@)));
    (v, out)
}

/// Plans one universal library per platform of `platform_lib_paths` in
/// `output_dir`, named `output_lib_name` where libraries are merged. The
/// plan first makes `output_dir`.
pub fn lipo_create_platform_libraries(
    platform_lib_paths: &Vec<(ApplePlatform, Vec<String>)>,
    output_lib_name: &str,
    output_dir: &str,
) -> (r: LipoPlan)
    ensures
        steps(r.actions@) == seq![Step::CreateDir(output_dir@)] + lipo_steps(
            output_dir@,
            output_lib_name@,
            groups_view(platform_lib_paths@),
        ),
        libs_view(r.libraries@) == lipo_outputs(
            output_dir@,
            output_lib_name@,
            groups_view(platform_lib_paths@),
        ),
{
    let ghost g = groups_view(platform_lib_paths@);
    let mut actions: Vec<Action> = vec![Action::CreateDir(String::from_str(output_dir))];
    let mut libraries: Vec<(ApplePlatform, String)> = Vec::new();
    let mut i: usize = 0;
    while i < platform_lib_paths.len()
        invariant
            i <= platform_lib_paths@.len(),
            g == groups_view(platform_lib_paths@),
            steps(actions@) == seq![Step::CreateDir(output_dir@)] + lipo_steps(
                output_dir@,
                output_lib_name@,
                g.subrange(0, i as int),
            ),
            libs_view(libraries@) == lipo_outputs(
                output_dir@,
                output_lib_name@,
                g.subrange(0, i as int),
            ),
        decreases platform_lib_paths@.len() - i,
    {
        assert(g.subrange(0, i + 1).drop_last() =~= g.subrange(0, i as int));
        let (p, paths) = &platform_lib_paths[i];
        assert(g[i as int] == (*p, strs(paths@)));
        let (more, lib) = group_actions(output_dir, output_lib_name, *p, paths);
        let ghost lv = lib@;
        let ghost old_libs = libraries@;
        append_actions(&mut actions, more);
        libraries.push((*p, lib));
        assert(libs_view(libraries@) =~= libs_view(old_libs).push((*p, lv)));
        i = i + 1;
        assert(steps(actions@) =~= seq![Step::CreateDir(output_dir@)] + lipo_steps(
            output_dir@,
            output_lib_name@,
            g.subrange(0, i as int),
        ));
        assert(libs_view(libraries@) =~= lipo_outputs(
            output_dir@,
            output_lib_name@,
            g.subrange(0, i as int),
        ));
    }
    assert(g.subrange(0, g.len() as int) =~= g);
    LipoPlan { actions, libraries }
}

/// How many platforms of `g` have other than one library.
pub open spec fn merged_count(g: Seq<(ApplePlatform, Seq<Seq<char>>)>) -> nat
    decreases g.len(),
{
    if g.len() == 0 {
        0
    } else {
        merged_count(g.drop_last()) + if g.last().1.len() == 1 {
            0nat
        } else {
            1nat
        }
    }
}

/// The merge tool runs once for each platform with other than one library,
/// and for no other.
pub proof fn lemma_lipo_runs(dir: Seq<char>, name: Seq<char>, g: Seq<(ApplePlatform, Seq<Seq<char>>)>)
    ensures
        runs_of(lipo_steps(dir, name, g), "lipo"@) == merged_count(g),
    decreases g.len(),
{
    if g.len() > 0 {
        lemma_lipo_runs(dir, name, g.drop_last());
        let last = group_steps(dir, name, g.last().0, g.last().1);
        lemma_runs_of_concat(lipo_steps(dir, name, g.drop_last()), last, "lipo"@);
        lemma_group_runs(dir, name, g.last().0, g.last().1);
    }
}

proof fn lemma_group_runs(dir: Seq<char>, name: Seq<char>, p: ApplePlatform, paths: Seq<Seq<char>>)
    ensures
        runs_of(group_steps(dir, name, p, paths), "lipo"@) == if paths.len() == 1 {
            0nat
        } else {
            1nat
        },
{
    let s = group_steps(dir, name, p, paths);
    if paths.len() == 1 {
        assert(runs_of(s, "lipo"@) == 0);
    } else {
        let s2 = s.drop_last();
        let s1 = s2.drop_last();
        let s0 = s1.drop_last();
        assert(s0 =~= seq![]);
        assert(runs_of(s0, "lipo"@) == 0);
        assert(runs_of(s1, "lipo"@) == 0);
        assert(runs_of(s2, "lipo"@) == 0);
        assert(runs_of(s, "lipo"@) == 1);
    }
}

/// Where every platform has exactly one library, the merge tool never runs
/// and each platform's universal library is that library itself, so its
/// bytes are the input's.
pub proof fn lemma_single_library_used_as_is(
    dir: Seq<char>,
    name: Seq<char>,
    g: Seq<(ApplePlatform, Seq<Seq<char>>)>,
)
    requires
        forall|k: int| 0 <= k < g.len() ==> (#[trigger] g[k]).1.len() == 1,
    ensures
        runs_of(lipo_steps(dir, name, g), "lipo"@) == 0,
        forall|k: int|
            0 <= k < g.len() ==> #[trigger] lipo_outputs(dir, name, g)[k] == (g[k].0, g[k].1[0]),
    decreases g.len(),
{
    lemma_lipo_runs(dir, name, g);
    lemma_merged_count_zero(g);
}

proof fn lemma_merged_count_zero(g: Seq<(ApplePlatform, Seq<Seq<char>>)>)
    requires
        forall|k: int| 0 <= k < g.len() ==> (#[trigger] g[k]).1.len() == 1,
    ensures
        merged_count(g) == 0,
    decreases g.len(),
{
    if g.len() > 0 {
        assert(g.last() == g[g.len() - 1]);
        lemma_merged_count_zero(g.drop_last());
    }
}

/// A platform with two or more libraries gets exactly one run of the merge
/// tool, over all its libraries, into its merged library, which is then its
/// universal library.
pub proof fn lemma_merge_once_per_platform(
    dir: Seq<char>,
    name: Seq<char>,
    g: Seq<(ApplePlatform, Seq<Seq<char>>)>,
    k: int,
)
    requires
        0 <= k < g.len(),
        g[k].1.len() >= 2,
    ensures
        runs_of(group_steps(dir, name, g[k].0, g[k].1), "lipo"@) == 1,
        group_steps(dir, name, g[k].0, g[k].1).contains(
            Step::Run("lipo"@, lipo_args(g[k].1, merged_path(dir, name, g[k].0))),
        ),
        lipo_outputs(dir, name, g)[k] == (g[k].0, merged_path(dir, name, g[k].0)),
        lipo_steps(dir, name, g) == lipo_steps(dir, name, g.subrange(0, k)) + group_steps(
            dir,
            name,
            g[k].0,
            g[k].1,
        ) + lipo_steps(dir, name, g.subrange(k + 1, g.len() as int)),
{
    let s = group_steps(dir, name, g[k].0, g[k].1);
    lemma_group_runs(dir, name, g[k].0, g[k].1);
    assert(s[2] == Step::Run("lipo"@, lipo_args(g[k].1, merged_path(dir, name, g[k].0))));
    lemma_lipo_steps_split(dir, name, g, k);
}

proof fn lemma_lipo_steps_concat(
    dir: Seq<char>,
    name: Seq<char>,
    a: Seq<(ApplePlatform, Seq<Seq<char>>)>,
    b: Seq<(ApplePlatform, Seq<Seq<char>>)>,
)
    ensures
        lipo_steps(dir, name, a + b) == lipo_steps(dir, name, a) + lipo_steps(dir, name, b),
    decreases b.len(),
{
    if b.len() == 0 {
        assert(a + b =~= a);
        assert(lipo_steps(dir, name, a) + seq![] =~= lipo_steps(dir, name, a));
    } else {
        assert((a + b).drop_last() =~= a + b.drop_last());
        lemma_lipo_steps_concat(dir, name, a, b.drop_last());
        assert(lipo_steps(dir, name, a + b) =~= lipo_steps(dir, name, a) + lipo_steps(dir, name, b));
    }
}

proof fn lemma_lipo_steps_split(
    dir: Seq<char>,
    name: Seq<char>,
    g: Seq<(ApplePlatform, Seq<Seq<char>>)>,
    k: int,
)
    requires
        0 <= k < g.len(),
    ensures
        lipo_steps(dir, name, g) == lipo_steps(dir, name, g.subrange(0, k)) + group_steps(
            dir,
            name,
            g[k].0,
            g[k].1,
        ) + lipo_steps(dir, name, g.subrange(k + 1, g.len() as int)),
{
    let a = g.subrange(0, k);
    let b = g.subrange(k + 1, g.len() as int);
    assert(g =~= a + seq![g[k]] + b);
    lemma_lipo_steps_concat(dir, name, a + seq![g[k]], b);
    lemma_lipo_steps_concat(dir, name, a, seq![g[k]]);
    assert(seq![g[k]].drop_last() =~= seq![]);
    assert(lipo_steps(dir, name, seq![g[k]]) == lipo_steps(dir, name, seq![]) + group_steps(
        dir,
        name,
        g[k].0,
        g[k].1,
    ));
    assert(lipo_steps(dir, name, seq![g[k]]) =~= group_steps(dir, name, g[k].0, g[k].1));
}

} // verus!
