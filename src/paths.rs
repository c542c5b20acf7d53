//! Resolving a user-supplied box directory against the caller's prefix and
//! checking that it stays inside that prefix.

use vstd::prelude::*;

verus! {

/// The path separator.
pub const SEPARATOR: char = '/';

/// `s` holds at least one separator.
pub open spec fn has_sep(s: Seq<char>) -> bool {
    exists|i: int| 0 <= i < s.len() && s[i] == '/'
}

/// `base` joined with the relative name `name`: a separator is put between them
/// unless `base` is empty or already ends with one.
pub open spec fn join(base: Seq<char>, name: Seq<char>) -> Seq<char> {
    if base.len() == 0 || base.last() == '/' {
        base + name
    } else {
        base + seq!['/'] + name
    }
}

/// A bare name denotes a directory inside `prefix`; anything holding a
/// separator is taken as it stands.
pub open spec fn expanded(boxdir: Seq<char>, prefix: Seq<char>) -> Seq<char> {
    if has_sep(boxdir) {
        boxdir
    } else {
        join(prefix, boxdir)
    }
}

/// Whether `s` holds a separator.
pub fn contains_separator(s: &str) -> (r: bool)
    ensures
        r == has_sep(s@),
{
    let n = s.unicode_len();
    let mut i: usize = 0;
    while i < n
        invariant
            n == s@.len(),
            i <= n,
            forall|j: int| 0 <= j < i ==> s@[j] != '/',
        decreases n - i,
    {
        if s.get_char(i) == SEPARATOR {
            return true;
        }
        i = i + 1;
    }
    false
}

/// Joins the relative name `name` onto `base`.
pub fn join_path(base: &str, name: &str) -> (r: String)
    ensures
        r@ == join(base@, name@),
{
    let mut r = String::from_str(base);
    let n = base.unicode_len();
    if n > 0 && base.get_char(n - 1) != SEPARATOR {
        proof {
            reveal_strlit("/");
        }
        r.append("/");
    }
    r.append(name);
    r
}

/// Expands a user-supplied box directory: a bare name is joined onto `prefix`,
/// a path holding a separator is returned unchanged.
pub fn expand(boxdir: &str, prefix: &str) -> (r: String)
    ensures
        r@ == expanded(boxdir@, prefix@),
        has_sep(boxdir@) ==> r@ == boxdir@,
        !has_sep(boxdir@) ==> r@ == join(prefix@, boxdir@),
{
    if contains_separator(boxdir) {
        String::from_str(boxdir)
    } else {
        join_path(prefix, boxdir)
    }
}

/// `s` names something other than the root: it holds a character that is not
/// a separator.
pub open spec fn has_component(s: Seq<char>) -> bool {
    exists|i: int| 0 <= i < s.len() && s[i] != '/'
}

/// Position `k` of `s` ends a leading part of the path: it is the end of `s` or
/// a separator.
pub open spec fn at_boundary(s: Seq<char>, k: int) -> bool {
    k == s.len() || s[k] == '/'
}

/// The leading parts of `s` that end at a boundary before position `k` (or at
/// it), longest first, leaving out those that name only the root.
pub open spec fn ancestors_upto(s: Seq<char>, k: nat) -> Seq<Seq<char>>
    decreases k,
{
    if k == 0 {
        Seq::empty()
    } else {
        let rest = ancestors_upto(s, (k - 1) as nat);
        if at_boundary(s, k as int) && has_component(s.subrange(0, k as int)) {
            seq![s.subrange(0, k as int)] + rest
        } else {
            rest
        }
    }
}

/// The path itself and each of its ancestors, nearest first, down to (not
/// including) the root or the empty path: the candidates that are tried when
/// looking for the part of a path that exists.
pub open spec fn ancestors_of(s: Seq<char>) -> Seq<Seq<char>> {
    ancestors_upto(s, s.len())
}

/// The views of a sequence of strings.
pub open spec fn views(v: Seq<String>) -> Seq<Seq<char>> {
    v.map_values(|x: String| x@)
}

/// `path` lies under `base`: `base` is a leading part of `path` that ends at a
/// component boundary (so `/a/bc` does not lie under `/a/b`).
pub open spec fn under(path: Seq<char>, base: Seq<char>) -> bool {
    &&& base.len() <= path.len()
    &&& path.subrange(0, base.len() as int) == base
    &&& (path.len() == base.len() || (base.len() > 0 && base.last() == '/') || path[base.len() as int]
        == '/')
}

/// The index of the first character of `s` that is not a separator, or the
/// length of `s` when there is none.
fn first_component_char(s: &str) -> (f: usize)
    ensures
        f <= s@.len(),
        forall|j: int| 0 <= j < f ==> s@[j] == '/',
        f < s@.len() ==> s@[f as int] != '/',
{
    let n = s.unicode_len();
    let mut i: usize = 0;
    while i < n
        invariant
            n == s@.len(),
            i <= n,
            forall|j: int| 0 <= j < i ==> s@[j] == '/',
        decreases n - i,
    {
        if s.get_char(i) != SEPARATOR {
            return i;
        }
        i = i + 1;
    }
    n
}

/// Lists `path` and its ancestors, nearest first, leaving out the root and the
/// empty path.
pub fn ancestors(path: &str) -> (r: Vec<String>)
    ensures
        views(r@) == ancestors_of(path@),
{
    let n = path.unicode_len();
    let f = first_component_char(path);
    let mut out: Vec<String> = Vec::new();
    let mut k: usize = n;
    while k > 0
        invariant
            n == path@.len(),
            k <= n,
            f <= n,
            forall|j: int| 0 <= j < f ==> path@[j] == '/',
            f < n ==> path@[f as int] != '/',
            views(out@) + ancestors_upto(path@, k as nat) == ancestors_of(path@),
        decreases k,
    {
        let ghost s = path@;
        let ghost before = views(out@);
        let boundary = k == n || path.get_char(k) == SEPARATOR;
        proof {
            let sub = s.subrange(0, k as int);
            if f < k {
                assert(sub[f as int] != '/');
            } else {
                assert forall|j: int| 0 <= j < sub.len() implies sub[j] == '/' by {
                    assert(sub[j] == s[j]);
                }
            }
        }
        if boundary && f < k {
            let part = path.substring_char(0, k);
            out.push(String::from_str(part));
            proof {
                assert(views(out@) =~= before + seq![s.subrange(0, k as int)]);
                assert(ancestors_upto(s, k as nat) == seq![s.subrange(0, k as int)]
                    + ancestors_upto(s, (k - 1) as nat));
                assert(views(out@) + ancestors_upto(s, (k - 1) as nat) =~= before
                    + ancestors_upto(s, k as nat));
            }
        } else {
            assert(ancestors_upto(s, k as nat) == ancestors_upto(s, (k - 1) as nat));
        }
        k = k - 1;
    }
    assert(views(out@) =~= views(out@) + ancestors_upto(path@, 0));
    out
}

/// Whether `path` lies under `base`.
pub fn lies_under(path: &str, base: &str) -> (r: bool)
    ensures
        r == under(path@, base@),
{
    let n = path.unicode_len();
    let m = base.unicode_len();
    if m > n {
        return false;
    }
    let mut i: usize = 0;
    while i < m
        invariant
            n == path@.len(),
            m == base@.len(),
            m <= n,
            i <= m,
            forall|j: int| 0 <= j < i ==> path@[j] == base@[j],
        decreases m - i,
    {
        if path.get_char(i) != base.get_char(i) {
            assert(path@.subrange(0, m as int)[i as int] != base@[i as int]);
            return false;
        }
        i = i + 1;
    }
    assert(path@.subrange(0, m as int) =~= base@);
    m == n || (m > 0 && base.get_char(m - 1) == SEPARATOR) || path.get_char(m) == SEPARATOR
}

/// The views of a sequence of optional strings.
pub open spec fn opt_views(v: Seq<Option<String>>) -> Seq<Option<Seq<char>>> {
    v.map_values(|o: Option<String>|
        match o {
            Some(x) => Some(x@),
            None => None,
        })
}

/// The first present entry of `resolved` at or after index `i`.
pub open spec fn first_present_from(resolved: Seq<Option<Seq<char>>>, i: nat) -> Option<Seq<char>>
    decreases resolved.len() - i,
{
    if i >= resolved.len() {
        None
    } else if resolved[i as int] is Some {
        resolved[i as int]
    } else {
        first_present_from(resolved, i + 1)
    }
}

/// A path is contained in `prefix` when the canonical form of its nearest
/// existing ancestor lies under `prefix`. `resolved[i]` is the canonical form of
/// the `i`-th candidate of `ancestors_of`, or `None` where that candidate does
/// not exist; with no existing candidate the path is not contained.
pub open spec fn contained(resolved: Seq<Option<Seq<char>>>, prefix: Seq<char>) -> bool {
    match first_present_from(resolved, 0) {
        Some(c) => under(c, prefix),
        None => false,
    }
}

/// Decides containment from the canonical forms of the candidates that
/// `ancestors` lists for a path (`None` where a candidate does not exist): the
/// nearest existing one decides, and it must lie under `prefix`.
pub fn below_prefix(resolved: &Vec<Option<String>>, prefix: &str) -> (r: bool)
    ensures
        r == contained(opt_views(resolved@), prefix@),
{
    let ghost rv = opt_views(resolved@);
    let mut i: usize = 0;
    while i < resolved.len()
        invariant
            rv == opt_views(resolved@),
            i <= resolved.len(),
            first_present_from(rv, 0) == first_present_from(rv, i as nat),
        decreases resolved.len() - i,
    {
        match &resolved[i] {
            Some(c) => {
                assert(rv[i as int] == Some(c@));
                return lies_under(c.as_str(), prefix);
            },
            None => {
                assert(rv[i as int] is None);
            },
        }
        i = i + 1;
    }
    false
}

} // verus!
