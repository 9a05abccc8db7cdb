//! Target triples as target-lexicon reads them, and the checks that a
//! configured triple belongs to its platform.

use vstd::prelude::*;
use crate::action::strs;
use crate::configuration::XCFrameworkConfiguration;
use crate::targets::{Target, triple_of};
use crate::text::str_eq;

verus! {

/// The parts of a target triple, each as target-lexicon displays it.
#[derive(Debug, Clone, PartialEq, Eq)]
pub struct TripleInfo {
    pub architecture: String,
    pub vendor: String,
    pub operating_system: String,
    pub environment: String,
    pub binary_format: String,
}

impl View for TripleInfo {
    type V = (Seq<char>, Seq<char>, Seq<char>, Seq<char>, Seq<char>);

    open spec fn view(&self) -> (Seq<char>, Seq<char>, Seq<char>, Seq<char>, Seq<char>) {
        (
            self.architecture@,
            self.vendor@,
            self.operating_system@,
            self.environment@,
            self.binary_format@,
        )
    }
}

/// The parts (architecture, vendor, operating system, environment, binary
/// format) that target-lexicon reads out of the triple `s`, if it reads
/// one.
pub uninterp spec fn lexicon_triple(s: Seq<char>) -> Option<
    (Seq<char>, Seq<char>, Seq<char>, Seq<char>, Seq<char>),
>;

/// Relies on `target_lexicon::Triple::from_str` to read a triple, and on the
/// `Display` of each of its parts.
#[verifier::external_body]
pub(crate) fn parse_triple(s: &str) -> (r: Option<TripleInfo>)
    ensures
        match r {
            Some(t) => lexicon_triple(s@) == Some(t@),
            None => lexicon_triple(s@) is None,
        },
{
    match <target_lexicon::Triple as core::str::FromStr>::from_str(s) {
        Ok(t) => Some(TripleInfo {
            architecture: t.architecture.to_string(),
            vendor: t.vendor.to_string(),
            operating_system: t.operating_system.to_string(),
            environment: t.environment.to_string(),
            binary_format: t.binary_format.to_string(),
        }),
        Err(_) => None,
    }
}

/// Whether a triple is built for a simulator: it is one of the x86-64
/// tvOS and iOS triples, which run in a simulator without saying so, or its
/// environment is `sim`.
pub open spec fn is_simulator(t: (Seq<char>, Seq<char>, Seq<char>, Seq<char>, Seq<char>)) -> bool {
    lexicon_triple("x86_64-apple-tvos"@) == Some(t) || lexicon_triple("x86_64-apple-ios"@) == Some(t)
        || t.3 == "sim"@
}

/// Apple-specific questions about a target triple.
pub trait TripleExt {
    spec fn spec_is_apple_simulator(&self) -> bool;

    fn is_apple_simulator(&self) -> (r: bool)
        ensures
            r == self.spec_is_apple_simulator(),
    ;
}

fn same_triple(a: &TripleInfo, b: &TripleInfo) -> (r: bool)
    ensures
        r == (a@ == b@),
{
    str_eq(a.architecture.as_str(), b.architecture.as_str()) && str_eq(
        a.vendor.as_str(),
        b.vendor.as_str(),
    ) && str_eq(a.operating_system.as_str(), b.operating_system.as_str()) && str_eq(
        a.environment.as_str(),
        b.environment.as_str(),
    ) && str_eq(a.binary_format.as_str(), b.binary_format.as_str())
}

fn matches_parsed(t: &TripleInfo, s: &str) -> (r: bool)
    ensures
        r == (lexicon_triple(s@) == Some(t@)),
{
    match parse_triple(s) {
        Some(u) => same_triple(&u, t),
        None => false,
    }
}

impl TripleExt for TripleInfo {
    open spec fn spec_is_apple_simulator(&self) -> bool {
        is_simulator(self@)
    }

    fn is_apple_simulator(&self) -> (r: bool) {
        matches_parsed(self, "x86_64-apple-tvos") || matches_parsed(self, "x86_64-apple-ios")
            || str_eq(self.environment.as_str(), "sim")
    }
}

/// What is wrong with a configured triple.
#[derive(Debug, Clone, Copy, PartialEq, Eq, Structural)]
pub enum TripleProblem {
    /// target-lexicon cannot read it.
    Invalid,
    /// It is for another operating system.
    WrongOperatingSystem,
    /// Its vendor is not Apple.
    NotApple,
    /// A simulator was expected, and it is not one.
    NotSimulator,
}

/// A configured triple that failed its check, and why.
#[derive(Debug, PartialEq, Eq)]
pub struct TripleError {
    pub triple: String,
    pub problem: TripleProblem,
}

/// What is wrong with triple `s` for operating system `os` (and for a
/// simulator where `simulator` is set), checked in that order, if anything.
pub open spec fn triple_problem(s: Seq<char>, os: Seq<char>, simulator: bool) -> Option<TripleProblem> {
    match lexicon_triple(s) {
        None => Some(TripleProblem::Invalid),
        Some(t) => parts_problem(t, os, simulator),
    }
}

/// The first of `ts` with a problem, and the problem.
pub open spec fn first_problem(ts: Seq<Seq<char>>, os: Seq<char>, simulator: bool) -> Option<(int, TripleProblem)>
    decreases ts.len(),
{
    if ts.len() == 0 {
        None
    } else {
        match first_problem(ts.drop_last(), os, simulator) {
            Some(x) => Some(x),
            None => match triple_problem(ts.last(), os, simulator) {
                Some(p) => Some((ts.len() - 1, p)),
                None => None,
            },
        }
    }
}

proof fn lemma_first_problem_extends(ts: Seq<Seq<char>>, os: Seq<char>, simulator: bool, n: int)
    requires
        0 < n <= ts.len(),
        first_problem(ts.subrange(0, n), os, simulator) is Some,
    ensures
        first_problem(ts, os, simulator) == first_problem(ts.subrange(0, n), os, simulator),
    decreases ts.len() - n,
{
    if n < ts.len() {
        assert(ts.subrange(0, n + 1).drop_last() =~= ts.subrange(0, n));
        lemma_first_problem_extends(ts, os, simulator, n + 1);
    } else {
        assert(ts.subrange(0, n) =~= ts);
    }
}

/// What is wrong with a read triple `t` for operating system `os`, if
/// anything.
pub open spec fn parts_problem(
    t: (Seq<char>, Seq<char>, Seq<char>, Seq<char>, Seq<char>),
    os: Seq<char>,
    simulator: bool,
) -> Option<TripleProblem> {
    if t.2 != os {
        Some(TripleProblem::WrongOperatingSystem)
    } else if t.1 != "apple"@ {
        Some(TripleProblem::NotApple)
    } else if simulator && !is_simulator(t) {
        Some(TripleProblem::NotSimulator)
    } else {
        None
    }
}

/// What is wrong with the read triple `t` for operating system `os` (and for
/// a simulator where `simulator` is set), checked in that order, if anything.
pub fn problem_of_parts(t: &TripleInfo, os: &str, simulator: bool) -> (r: Option<TripleProblem>)
    ensures
        r == parts_problem(t@, os@, simulator),
{
    if !str_eq(t.operating_system.as_str(), os) {
        Some(TripleProblem::WrongOperatingSystem)
    } else if !str_eq(t.vendor.as_str(), "apple") {
        Some(TripleProblem::NotApple)
    } else if simulator && !t.is_apple_simulator() {
        Some(TripleProblem::NotSimulator)
    } else {
        None
    }
}

/// What is wrong with `triple` for operating system `os`, if anything.
pub fn check_triple(triple: &str, os: &str, simulator: bool) -> (r: Option<TripleProblem>)
    ensures
        r == triple_problem(triple@, os@, simulator),
{
    match parse_triple(triple) {
        None => Some(TripleProblem::Invalid),
        Some(t) => problem_of_parts(&t, os, simulator),
    }
}

/// Checks that each of `targets` is an Apple triple for the operating
/// system `os` (as target-lexicon names it, such as `ios` or `darwin`),
/// and a simulator triple where `simulator` is set; the first that is not
/// is the error.
pub fn validate_triples(targets: &Vec<String>, os: &str, simulator: bool) -> (r: Result<(), TripleError>)
    ensures
        match first_problem(strs(targets@), os@, simulator) {
            None => r is Ok,
            Some((i, p)) => r matches Err(e) && e.triple@ == targets@[i]@ && e.problem == p,
        },
{
    let mut i: usize = 0;
    while i < targets.len()
        invariant
            i <= targets@.len(),
            first_problem(strs(targets@.subrange(0, i as int)), os@, simulator) is None,
        decreases targets@.len() - i,
    {
        assert(strs(targets@.subrange(0, i + 1)).drop_last() =~= strs(
            targets@.subrange(0, i as int),
        ));
        assert(strs(targets@.subrange(0, i + 1)).last() == targets@[i as int]@);
        match check_triple(targets[i].as_str(), os, simulator) {
            Some(problem) => {
                proof {
                    assert(strs(targets@.subrange(0, i + 1)) =~= strs(targets@).subrange(
                        0,
                        i + 1,
                    ));
                    lemma_first_problem_extends(strs(targets@), os@, simulator, i + 1);
                }
                return Err(TripleError { triple: targets[i].clone(), problem });
            },
            None => {},
        }
        i = i + 1;
    }
    assert(targets@.subrange(0, targets@.len() as int) =~= targets@);
    Ok(())
}

/// The triples of `ts`.
pub open spec fn triples(ts: Seq<Target>) -> Seq<Seq<char>> {
    ts.map_values(|t: Target| triple_of(t))
}

/// The first problem among the triples of `ts`, with the triple.
pub open spec fn list_problem(ts: Seq<Target>, os: Seq<char>, simulator: bool) -> Option<(Seq<char>, TripleProblem)> {
    match first_problem(triples(ts), os, simulator) {
        Some((i, p)) => Some((triple_of(ts[i]), p)),
        None => None,
    }
}

/// The first problem among the triples that a manifest section enables:
/// the macOS ones for `darwin`, the iOS ones for `ios`, and the iOS
/// simulator ones for `ios` and a simulator.
pub open spec fn section_problem(c: XCFrameworkConfiguration) -> Option<(Seq<char>, TripleProblem)> {
    if c.macOS && list_problem(c.macOS_targets@, "darwin"@, false) is Some {
        list_problem(c.macOS_targets@, "darwin"@, false)
    } else if c.iOS && list_problem(c.iOS_targets@, "ios"@, false) is Some {
        list_problem(c.iOS_targets@, "ios"@, false)
    } else if c.iOS && c.simulators {
        list_problem(c.iOS_simulator_targets@, "ios"@, true)
    } else {
        None
    }
}

fn triple_strings(ts: &Vec<Target>) -> (r: Vec<String>)
    ensures
        strs(r@) == triples(ts@),
{
    let mut r: Vec<String> = Vec::new();
    let mut i: usize = 0;
    while i < ts.len()
        invariant
            i <= ts@.len(),
            strs(r@) == triples(ts@.subrange(0, i as int)),
        decreases ts@.len() - i,
    {
        crate::action::push_string(&mut r, String::from_str(ts[i].as_str()));
        i = i + 1;
        assert(strs(r@) =~= triples(ts@.subrange(0, i as int)));
    }
    assert(ts@.subrange(0, ts@.len() as int) =~= ts@);
    r
}

proof fn lemma_first_problem_bound(ts: Seq<Seq<char>>, os: Seq<char>, simulator: bool)
    ensures
        first_problem(ts, os, simulator) matches Some((i, _)) ==> 0 <= i < ts.len(),
    decreases ts.len(),
{
    if ts.len() > 0 {
        lemma_first_problem_bound(ts.drop_last(), os, simulator);
    }
}

fn validate_list(ts: &Vec<Target>, os: &str, simulator: bool) -> (r: Result<(), TripleError>)
    ensures
        match list_problem(ts@, os@, simulator) {
            None => r is Ok,
            Some((t, p)) => r matches Err(e) && e.triple@ == t && e.problem == p,
        },
{
    let v = triple_strings(ts);
    proof {
        lemma_first_problem_bound(triples(ts@), os@, simulator);
    }
    let r = validate_triples(&v, os, simulator);
    proof {
        if let Some((i, p)) = first_problem(triples(ts@), os@, simulator) {
            assert(strs(v@)[i] == v@[i]@);
            assert(triples(ts@)[i] == triple_of(ts@[i]));
        }
    }
    r
}

/// Checks that each triple that a manifest section enables is an Apple
/// triple of its platform's operating system, and a simulator triple in
/// the simulator list; the first that is not is the error.
pub fn validate_section_targets(c: &XCFrameworkConfiguration) -> (r: Result<(), TripleError>)
    ensures
        match section_problem(*c) {
            None => r is Ok,
            Some((t, p)) => r matches Err(e) && e.triple@ == t && e.problem == p,
        },
{
    if c.macOS {
        match validate_list(&c.macOS_targets, "darwin", false) {
            Err(e) => return Err(e),
            Ok(()) => {},
        }
    }
    if c.iOS {
        match validate_list(&c.iOS_targets, "ios", false) {
            Err(e) => return Err(e),
            Ok(()) => {},
        }
        if c.simulators {
            return validate_list(&c.iOS_simulator_targets, "ios", true);
        }
    }
    Ok(())
}

} // verus!
