//! Path text as the pipeline builds it: every path is a `String`, joined and
//! taken apart by camino.

use vstd::prelude::*;
use vstd::string::*;

verus! {

/// The path that camino's `join` makes of `base` and `part`.
pub uninterp spec fn joined_path(base: Seq<char>, part: Seq<char>) -> Seq<char>;

/// The final component that camino's `file_name` finds in a path, if any.
pub uninterp spec fn file_name_of(path: Seq<char>) -> Option<Seq<char>>;

/// Relies on `camino::Utf8Path::join`, which adjoins a path as std's
/// `PathBuf::push` does on Unix-like hosts: an absolute part replaces the
/// base; a relative part follows an empty base or one that ends in `/`
/// directly, and any other base after a `/`.
#[verifier::external_body]
pub(crate) fn join(base: &str, part: &str) -> (r: String)
    ensures
        r@ == joined_path(base@, part@),
        part@.len() > 0 && part@[0] == '/' ==> r@ == part@,
        base@.len() > 0 && base@.last() != '/' && part@.len() > 0 && part@[0] != '/' ==> r@
            == base@ + seq!['/'] + part@,
        base@.len() == 0 ==> r@ == part@,
        base@.len() > 0 && base@.last() == '/' && !(part@.len() > 0 && part@[0] == '/') ==> r@
            == base@ + part@,
{
    camino::Utf8Path::new(base).join(part).into_string()
}

/// Relies on `camino::Utf8Path::file_name`: the final component of a path,
/// none where the path ends in `..` or is a root.
#[verifier::external_body]
pub(crate) fn file_name(path: &str) -> (r: Option<String>)
    ensures
        match r {
            Some(n) => file_name_of(path@) == Some(n@),
            None => file_name_of(path@) is None,
        },
{
    camino::Utf8Path::new(path).file_name().map(String::from)
}

/// `path` where it is absolute, else `path` under `root`.
pub open spec fn resolved_path(root: Seq<char>, path: Seq<char>) -> Seq<char> {
    if path.len() > 0 && path[0] == '/' {
        path
    } else {
        joined_path(root, path)
    }
}

/// `path` where it is absolute (on Unix-like hosts, where an absolute path
/// starts with `/`), else `path` under `root`.
pub fn resolve_path(root: &str, path: &str) -> (r: String)
    ensures
        r@ == resolved_path(root@, path@),
{
    if path.unicode_len() > 0 && path.get_char(0) == '/' {
        String::from_str(path)
    } else {
        join(root, path)
    }
}

} // verus!
