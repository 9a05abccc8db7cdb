//! Reading the module name out of a module map, and finding the one module
//! map among the files of an include directory.

use vstd::prelude::*;
use vstd::string::*;
use crate::paths::{file_name, file_name_of};
use crate::text::{
    has_prefix_at, has_suffix, is_prefix, is_suffix, slice_owned, trim_end, trimmed_end,
};

verus! {

/// Why no module name came out of an include directory or a module map.
#[derive(Debug, PartialEq, Eq)]
pub enum ModuleMapError {
    /// No line declares a module.
    NoDeclaration,
    /// The first declaration does not end with `{`; it holds what was found.
    MissingBrace(String),
    /// The include directory holds no module map.
    NotFound,
    /// The include directory holds this many module maps, more than one.
    Ambiguous(usize),
}

/// The index of the first line break at or after `i`, or the length of `s`.
pub open spec fn line_break(s: Seq<char>, i: int) -> int
    decreases s.len() - i,
{
    if i < 0 || i >= s.len() {
        s.len() as int
    } else if s[i] == '\n' {
        i
    } else {
        line_break(s, i + 1)
    }
}

/// The text of the line that runs from `start` to the break at `k`, without
/// the carriage return of a `\r\n` ending.
pub open spec fn line_text(s: Seq<char>, start: int, k: int) -> Seq<char> {
    if k < s.len() && k > start && s[k - 1] == '\r' {
        s.subrange(start, k - 1)
    } else {
        s.subrange(start, k)
    }
}

/// What follows `framework module ` or `module ` at the start of a line.
pub open spec fn declaration_rest(line: Seq<char>) -> Option<Seq<char>> {
    if is_prefix("framework module "@, line) {
        Some(line.subrange("framework module "@.len() as int, line.len() as int))
    } else if is_prefix("module "@, line) {
        Some(line.subrange("module "@.len() as int, line.len() as int))
    } else {
        None
    }
}

/// The rest of the first declaring line at or after `start`.
pub open spec fn declaration_from(s: Seq<char>, start: int) -> Option<Seq<char>>
    decreases s.len() - start,
{
    if start < 0 || start >= s.len() {
        None
    } else {
        let k = line_break(s, start);
        match declaration_rest(line_text(s, start, k)) {
            Some(r) => Some(r),
            None => if start <= k < s.len() {
                declaration_from(s, k + 1)
            } else {
                None
            },
        }
    }
}

/// Whether a declaration's rest, trimmed, ends with the opening brace.
pub open spec fn ends_with_brace(rest: Seq<char>) -> bool {
    trim_end(rest).len() > 0 && trim_end(rest).last() == '{'
}

/// The module name that a declaration's rest declares.
pub open spec fn declared_name(rest: Seq<char>) -> Seq<char> {
    trim_end(trim_end(rest).drop_last())
}

proof fn lemma_line_break_bounds(s: Seq<char>, i: int)
    requires
        0 <= i <= s.len(),
    ensures
        i <= line_break(s, i) <= s.len(),
        line_break(s, i) < s.len() ==> s[line_break(s, i)] == '\n',
    decreases s.len() - i,
{
    if i < s.len() && s[i] != '\n' {
        lemma_line_break_bounds(s, i + 1);
    }
}

fn find_line_break(s: &str, start: usize, n: usize) -> (k: usize)
    requires
        n == s@.len(),
        start <= n,
    ensures
        k == line_break(s@, start as int),
{
    let mut k = start;
    while k < n && s.get_char(k) != '\n'
        invariant
            n == s@.len(),
            start <= k <= n,
            line_break(s@, start as int) == line_break(s@, k as int),
        decreases n - k,
    {
        k = k + 1;
    }
    k
}

/// The module name that `content` declares: the first line that starts with
/// `framework module ` or `module ` gives it, once its rest, trimmed at the
/// end, ends with `{` and that brace and the white space before it are gone.
pub fn parse_module_name(content: &str) -> (r: Result<String, ModuleMapError>)
    ensures
        match declaration_from(content@, 0) {
            None => r == Err::<String, ModuleMapError>(ModuleMapError::NoDeclaration),
            Some(rest) => if ends_with_brace(rest) {
                r matches Ok(name) && name@ == declared_name(rest)
            } else {
                r matches Err(ModuleMapError::MissingBrace(found)) && found@ == trim_end(rest)
            },
        },
{
    let n = content.unicode_len();
    let ghost s = content@;
    let mut start: usize = 0;
    let mut found: Option<(usize, usize)> = None;
    while start < n
        invariant_except_break
            found is None,
            declaration_from(s, 0) == declaration_from(s, start as int),
        invariant
            n == s.len(),
            s == content@,
            start <= n,
        ensures
            match found {
                None => declaration_from(s, 0) is None,
                Some((a, b)) => a <= b <= n && declaration_from(s, 0) == Some(
                    s.subrange(a as int, b as int),
                ),
            },
        decreases n - start,
    {
        let k = find_line_break(content, start, n);
        proof {
            lemma_line_break_bounds(s, start as int);
        }
        let end = if k < n && k > start && content.get_char(k - 1) == '\r' {
            k - 1
        } else {
            k
        };
        assert(s.subrange(start as int, end as int) == line_text(s, start as int, k as int));
        let ghost line = s.subrange(start as int, end as int);
        if has_prefix_at(content, start, end, "framework module ") {
            let p = "framework module ".unicode_len();
            assert(line.subrange(p as int, line.len() as int) =~= s.subrange(
                start + p,
                end as int,
            ));
            found = Some((start + p, end));
            break ;
        }
        if has_prefix_at(content, start, end, "module ") {
            let p = "module ".unicode_len();
            assert(line.subrange(p as int, line.len() as int) =~= s.subrange(
                start + p,
                end as int,
            ));
            found = Some((start + p, end));
            break ;
        }
        if k == n {
            start = n;
        } else {
            start = k + 1;
        }
    }
    match found {
        None => Err(ModuleMapError::NoDeclaration),
        Some((from, to)) => {
            let ghost rest = s.subrange(from as int, to as int);
            let e = trimmed_end(content, from, to);
            if e > from && content.get_char(e - 1) == '{' {
                let e2 = trimmed_end(content, from, e - 1);
                assert(trim_end(rest).drop_last() =~= s.subrange(from as int, e - 1));
                Ok(slice_owned(content, from, e2))
            } else {
                Err(ModuleMapError::MissingBrace(slice_owned(content, from, e)))
            }
        },
    }
}

/// Whether `path`'s file name carries the extension `ext` (given without a
/// dot): the name ends with `.` and `ext`, and is more than just that, so a
/// hidden file such as `.h` carries none.
pub open spec fn has_extension(path: Seq<char>, ext: Seq<char>) -> bool {
    match file_name_of(path) {
        Some(n) => is_suffix(seq!['.'] + ext, n) && n != seq!['.'] + ext,
        None => false,
    }
}

/// The paths among `paths` with the extension `ext`, in their order.
pub open spec fn with_extension(paths: Seq<String>, ext: Seq<char>) -> Seq<String>
    decreases paths.len(),
{
    if paths.len() == 0 {
        Seq::empty()
    } else {
        let prev = with_extension(paths.drop_last(), ext);
        if has_extension(paths.last()@, ext) {
            prev.push(paths.last())
        } else {
            prev
        }
    }
}

/// Whether the file name `name` carries the extension `ext`.
pub fn name_has_extension(name: &str, ext: &str) -> (r: bool)
    ensures
        r == (is_suffix(seq!['.'] + ext@, name@) && name@ != seq!['.'] + ext@),
{
    let dotted = crate::text::concat(".", ext);
    proof {
        reveal_strlit(".");
    }
    assert(dotted@ =~= seq!['.'] + ext@);
    has_suffix(name, dotted.as_str()) && !crate::text::str_eq(name, dotted.as_str())
}

/// Whether `path`'s file name carries the extension `ext`.
pub fn path_has_extension(path: &str, ext: &str) -> (r: bool)
    ensures
        r == has_extension(path@, ext@),
{
    match file_name(path) {
        None => false,
        Some(n) => name_has_extension(n.as_str(), ext),
    }
}

/// The paths among `paths` with the extension `ext`, in their order.
pub fn filter_by_extension(paths: &Vec<String>, ext: &str) -> (r: Vec<String>)
    ensures
        r@ == with_extension(paths@, ext@),
{
    let mut r: Vec<String> = Vec::new();
    let mut i: usize = 0;
    while i < paths.len()
        invariant
            i <= paths@.len(),
            r@ == with_extension(paths@.subrange(0, i as int), ext@),
        decreases paths@.len() - i,
    {
        assert(paths@.subrange(0, i + 1).drop_last() =~= paths@.subrange(0, i as int));
        if path_has_extension(paths[i].as_str(), ext) {
            r.push(paths[i].clone());
        }
        i = i + 1;
    }
    assert(paths@.subrange(0, paths@.len() as int) =~= paths@);
    r
}

/// The one module map among the files of an include directory.
pub fn select_modulemap(files: &Vec<String>) -> (r: Result<String, ModuleMapError>)
    ensures
        ({
            let found = with_extension(files@, "modulemap"@);
            if found.len() == 0 {
                r == Err::<String, ModuleMapError>(ModuleMapError::NotFound)
            } else if found.len() == 1 {
                r matches Ok(p) && p == found[0]
            } else {
                r == Err::<String, ModuleMapError>(ModuleMapError::Ambiguous(found.len() as usize))
            }
        }),
{
    let mut found = filter_by_extension(files, "modulemap");
    if found.len() == 0 {
        Err(ModuleMapError::NotFound)
    } else if found.len() == 1 {
        Ok(found.remove(0))
    } else {
        Err(ModuleMapError::Ambiguous(found.len()))
    }
}

/// The headers (`.h`) and the module maps among the files of an include
/// directory, each in their order.
pub fn separate_include_dir(files: &Vec<String>) -> (r: (Vec<String>, Vec<String>))
    ensures
        r.0@ == with_extension(files@, "h"@),
        r.1@ == with_extension(files@, "modulemap"@),
{
    (filter_by_extension(files, "h"), filter_by_extension(files, "modulemap"))
}

} // verus!
