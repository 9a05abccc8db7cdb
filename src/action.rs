//! The steps of a plan: what the driver does on the file system and which
//! external tools it runs, in order.

use vstd::prelude::*;

verus! {

/// One step of a plan.
#[derive(Debug, Clone, PartialEq, Eq)]
pub enum Action {
    /// Create a directory and its parents, where missing.
    CreateDir(String),
    /// Remove a file or a directory tree, where present.
    Remove(String),
    /// Write a text file.
    WriteFile { path: String, contents: String },
    /// Copy a file.
    Copy { from: String, to: String },
    /// Move a file or a directory tree.
    Move { from: String, to: String },
    /// Run a program with these arguments; a failure ends the run.
    Run { program: String, args: Vec<String> },
    /// Compress a directory tree into a zip archive.
    Zip { source: String, dest: String },
}

/// A step as a value.
pub enum Step {
    CreateDir(Seq<char>),
    Remove(Seq<char>),
    WriteFile(Seq<char>, Seq<char>),
    Copy(Seq<char>, Seq<char>),
    Move(Seq<char>, Seq<char>),
    Run(Seq<char>, Seq<Seq<char>>),
    Zip(Seq<char>, Seq<char>),
}

/// The views of a list of strings.
pub open spec fn strs(v: Seq<String>) -> Seq<Seq<char>> {
    v.map_values(|s: String| s@)
}

pub proof fn lemma_strs_push(s: Seq<String>, x: String)
    ensures
        strs(s.push(x)) == strs(s).push(x@),
{
    assert(strs(s.push(x)) =~= strs(s).push(x@));
}

impl View for Action {
    type V = Step;

    open spec fn view(&self) -> Step {
        match self {
            Action::CreateDir(p) => Step::CreateDir(p@),
            Action::Remove(p) => Step::Remove(p@),
            Action::WriteFile { path, contents } => Step::WriteFile(path@, contents@),
            Action::Copy { from, to } => Step::Copy(from@, to@),
            Action::Move { from, to } => Step::Move(from@, to@),
            Action::Run { program, args } => Step::Run(program@, strs(args@)),
            Action::Zip { source, dest } => Step::Zip(source@, dest@),
        }
    }
}

/// The views of a list of actions.
pub open spec fn steps(v: Seq<Action>) -> Seq<Step> {
    v.map_values(|a: Action| a@)
}

/// How many steps of `s` run `program`.
pub open spec fn runs_of(s: Seq<Step>, program: Seq<char>) -> nat
    decreases s.len(),
{
    if s.len() == 0 {
        0
    } else {
        runs_of(s.drop_last(), program) + match s.last() {
            Step::Run(p, _) => if p == program {
                1nat
            } else {
                0nat
            },
            _ => 0nat,
        }
    }
}

pub proof fn lemma_runs_of_concat(a: Seq<Step>, b: Seq<Step>, program: Seq<char>)
    ensures
        runs_of(a + b, program) == runs_of(a, program) + runs_of(b, program),
    decreases b.len(),
{
    if b.len() > 0 {
        assert((a + b).drop_last() =~= a + b.drop_last());
        lemma_runs_of_concat(a, b.drop_last(), program);
    } else {
        assert(a + b =~= a);
    }
}

/// How many times one step runs `program`: once where it is a run of it.
pub open spec fn runs_in(s: Step, program: Seq<char>) -> nat {
    match s {
        Step::Run(p, _) => if p == program {
            1nat
        } else {
            0nat
        },
        _ => 0nat,
    }
}

pub proof fn lemma_runs_of_single(s: Step, program: Seq<char>)
    ensures
        runs_of(seq![s], program) == runs_in(s, program),
{
    assert(seq![s].drop_last() =~= seq![]);
    assert(runs_of(Seq::<Step>::empty(), program) == 0);
    assert(seq![s].last() == s);
}

/// `v` once `more` is moved onto its end.
pub fn append_actions(v: &mut Vec<Action>, more: Vec<Action>)
    ensures
        steps(final(v)@) == steps(old(v)@) + steps(more@),
{
    let mut more = more;
    let ghost a = v@;
    let ghost b = more@;
    v.append(&mut more);
    assert(steps(v@) =~= steps(a) + steps(b));
}

/// Adds `s` to the end of `v`.
pub fn push_string(v: &mut Vec<String>, s: String)
    ensures
        strs(final(v)@) == strs(old(v)@).push(s@),
{
    let ghost sv = s@;
    let ghost before = v@;
    v.push(s);
    proof {
        lemma_strs_push(before, v@.last());
    }
    assert(v@ == before.push(v@.last()));
}

} // verus!
