//! Which of the triples a run needs are still to be installed.

use vstd::prelude::*;
use crate::text::str_eq;

verus! {

/// A triple that the toolchain installer knows, and whether it is
/// installed.
#[derive(Debug, Clone)]
pub struct InstalledTarget {
    pub triple: String,
    pub installed: bool,
}

/// A needed triple that the toolchain installer does not know.
#[derive(Debug, PartialEq, Eq)]
pub struct UnsupportedTarget {
    pub triple: String,
}

/// The index of the first of `known` for triple `t`.
pub open spec fn known_index(known: Seq<InstalledTarget>, t: Seq<char>) -> Option<int>
    decreases known.len(),
{
    if known.len() == 0 {
        None
    } else {
        match known_index(known.drop_last(), t) {
            Some(i) => Some(i),
            None => if known.last().triple@ == t {
                Some(known.len() - 1)
            } else {
                None
            },
        }
    }
}

/// The triples of `needed` to install, in order: each one that `known`
/// lists as not installed; the first that `known` does not list at all
/// is an error.
pub open spec fn to_install(needed: Seq<String>, known: Seq<InstalledTarget>) -> Result<Seq<Seq<char>>, Seq<char>>
    decreases needed.len(),
{
    if needed.len() == 0 {
        Ok(seq![])
    } else {
        match to_install(needed.drop_last(), known) {
            Err(e) => Err(e),
            Ok(prev) => match known_index(known, needed.last()@) {
                None => Err(needed.last()@),
                Some(i) => if known[i].installed {
                    Ok(prev)
                } else {
                    Ok(prev.push(known[i].triple@))
                },
            },
        }
    }
}

proof fn lemma_known_index_bound(known: Seq<InstalledTarget>, t: Seq<char>)
    ensures
        known_index(known, t) matches Some(i) ==> 0 <= i < known.len() && known[i].triple@ == t,
    decreases known.len(),
{
    if known.len() > 0 {
        lemma_known_index_bound(known.drop_last(), t);
    }
}

proof fn lemma_known_index_extends(known: Seq<InstalledTarget>, t: Seq<char>, n: int)
    requires
        0 < n <= known.len(),
        known_index(known.subrange(0, n), t) is Some,
    ensures
        known_index(known, t) == known_index(known.subrange(0, n), t),
    decreases known.len() - n,
{
    if n < known.len() {
        assert(known.subrange(0, n + 1).drop_last() =~= known.subrange(0, n));
        lemma_known_index_extends(known, t, n + 1);
    } else {
        assert(known.subrange(0, n) =~= known);
    }
}

proof fn lemma_to_install_fails(needed: Seq<String>, known: Seq<InstalledTarget>, n: int)
    requires
        0 < n <= needed.len(),
        to_install(needed.subrange(0, n), known) is Err,
    ensures
        to_install(needed, known) == to_install(needed.subrange(0, n), known),
    decreases needed.len() - n,
{
    if n < needed.len() {
        assert(needed.subrange(0, n + 1).drop_last() =~= needed.subrange(0, n));
        lemma_to_install_fails(needed, known, n + 1);
    } else {
        assert(needed.subrange(0, n) =~= needed);
    }
}

fn find_known(known: &Vec<InstalledTarget>, t: &str) -> (r: Option<usize>)
    ensures
        match r {
            Some(k) => known_index(known@, t@) == Some(k as int),
            None => known_index(known@, t@) is None,
        },
{
    proof {
        lemma_known_index_bound(known@, t@);
    }
    let mut i: usize = 0;
    while i < known.len()
        invariant
            i <= known@.len(),
            known_index(known@.subrange(0, i as int), t@) is None,
        decreases known@.len() - i,
    {
        assert(known@.subrange(0, i + 1).drop_last() =~= known@.subrange(0, i as int));
        if str_eq(known[i].triple.as_str(), t) {
            proof {
                lemma_known_index_extends(known@, t@, i + 1);
            }
            return Some(i);
        }
        i = i + 1;
    }
    assert(known@.subrange(0, known@.len() as int) =~= known@);
    None
}

/// The triples of `needed` that are to be installed, given what the
/// toolchain installer lists as `known`.
pub fn targets_to_install(needed: &Vec<String>, known: &Vec<InstalledTarget>) -> (r: Result<
    Vec<String>,
    UnsupportedTarget,
>)
    ensures
        match to_install(needed@, known@) {
            Ok(ts) => r matches Ok(v) && crate::action::strs(v@) == ts,
            Err(t) => r matches Err(e) && e.triple@ == t,
        },
{
    let mut out: Vec<String> = Vec::new();
    let mut i: usize = 0;
    assert(crate::action::strs(out@) =~= seq![]);
    while i < needed.len()
        invariant
            i <= needed@.len(),
            to_install(needed@.subrange(0, i as int), known@) == Ok::<
                Seq<Seq<char>>,
                Seq<char>,
            >(crate::action::strs(out@)),
        decreases needed@.len() - i,
    {
        assert(needed@.subrange(0, i + 1).drop_last() =~= needed@.subrange(0, i as int));
        proof {
            lemma_known_index_bound(known@, needed@[i as int]@);
        }
        match find_known(known, needed[i].as_str()) {
            None => {
                proof {
                    lemma_to_install_fails(needed@, known@, i + 1);
                }
                return Err(UnsupportedTarget { triple: needed[i].clone() });
            },
            Some(k) => {
                if !known[k].installed {
                    crate::action::push_string(&mut out, known[k].triple.clone());
                }
            },
        }
        i = i + 1;
    }
    assert(needed@.subrange(0, needed@.len() as int) =~= needed@);
    Ok(out)
}

} // verus!
