//! Textual path model shared by the policy engine and the interception
//! pipeline. A path is a sequence of characters in which `/` and `\` both
//! separate components.

use vstd::prelude::*;

verus! {

pub open spec fn is_separator(c: char) -> bool {
    c == '/' || c == '\\'
}

/// `prefix` names `p` itself or one of its ancestors: `p` begins with the
/// characters of `prefix` and the match ends on a component boundary.
/// The empty prefix is an ancestor of every path.
pub open spec fn path_starts_with(p: Seq<char>, prefix: Seq<char>) -> bool {
    &&& prefix.len() <= p.len()
    &&& p.subrange(0, prefix.len() as int) == prefix
    &&& (prefix.len() == 0 || prefix.len() == p.len() || is_separator(p[prefix.len() as int])
        || is_separator(prefix.last()))
}

pub open spec fn trim_leading_separators(s: Seq<char>) -> Seq<char>
    decreases s.len(),
{
    if s.len() > 0 && is_separator(s[0]) {
        trim_leading_separators(s.drop_first())
    } else {
        s
    }
}

/// What is left of `p` once `prefix` and the separators after it are removed.
pub open spec fn path_remainder(p: Seq<char>, prefix: Seq<char>) -> Seq<char> {
    trim_leading_separators(p.subrange(prefix.len() as int, p.len() as int))
}

/// A rooted path (`\x`, `/x`) or one with a drive designator (`C:...`).
pub open spec fn is_absolute(p: Seq<char>) -> bool {
    (p.len() > 0 && is_separator(p[0])) || (p.len() >= 2 && p[1] == ':')
}

/// The separator that joining onto `base` inserts: `\` where `base` already
/// uses it, `/` otherwise.
pub open spec fn join_separator(base: Seq<char>) -> char {
    if base.contains('\\') {
        '\\'
    } else {
        '/'
    }
}

/// `base` extended by the relative path `rel`; an absolute `rel` replaces
/// `base`, and an empty one leaves it as it is.
pub open spec fn path_join(base: Seq<char>, rel: Seq<char>) -> Seq<char> {
    if rel.len() == 0 {
        base
    } else if is_absolute(rel) || base.len() == 0 {
        rel
    } else if is_separator(base.last()) {
        base + rel
    } else {
        base + seq![join_separator(base)] + rel
    }
}

fn is_separator_char(c: char) -> (r: bool)
    ensures
        r == is_separator(c),
{
    c == '/' || c == '\\'
}

/// Whether `prefix` is `p` itself or one of its ancestors.
pub fn starts_with_path(p: &str, prefix: &str) -> (r: bool)
    ensures
        r == path_starts_with(p@, prefix@),
{
    let n = p.unicode_len();
    let m = prefix.unicode_len();
    if m > n {
        return false;
    }
    let mut i: usize = 0;
    while i < m
        invariant
            m <= n,
            n == p@.len(),
            m == prefix@.len(),
            i <= m,
            forall|j: int| 0 <= j < i ==> p@[j] == prefix@[j],
        decreases m - i,
    {
        if p.get_char(i) != prefix.get_char(i) {
            assert(p@.subrange(0, m as int)[i as int] != prefix@[i as int]);
            return false;
        }
        i = i + 1;
    }
    assert(p@.subrange(0, m as int) =~= prefix@);
    if m == 0 || m == n {
        return true;
    }
    is_separator_char(p.get_char(m)) || is_separator_char(prefix.get_char(m - 1))
}


proof fn lemma_trim_step(s: Seq<char>, i: int)
    requires
        0 <= i < s.len(),
        is_separator(s[i]),
    ensures
        trim_leading_separators(s.subrange(i, s.len() as int)) == trim_leading_separators(
            s.subrange(i + 1, s.len() as int),
        ),
{
    assert(s.subrange(i, s.len() as int).drop_first() =~= s.subrange(i + 1, s.len() as int));
}

/// The part of `p` after `prefix`, without the separators that open it.
pub fn remainder_after<'a>(p: &'a str, prefix: &str) -> (r: &'a str)
    requires
        path_starts_with(p@, prefix@),
    ensures
        r@ == path_remainder(p@, prefix@),
{
    let n = p.unicode_len();
    let mut k: usize = prefix.unicode_len();
    while k < n && is_separator_char(p.get_char(k))
        invariant
            prefix@.len() <= k <= n,
            n == p@.len(),
            trim_leading_separators(p@.subrange(k as int, n as int)) == path_remainder(
                p@,
                prefix@,
            ),
        decreases n - k,
    {
        proof {
            lemma_trim_step(p@, k as int);
        }
        k = k + 1;
    }
    p.substring_char(k, n)
}

fn contains_backslash(s: &str) -> (r: bool)
    ensures
        r == s@.contains('\\'),
{
    let n = s.unicode_len();
    let mut i: usize = 0;
    while i < n
        invariant
            n == s@.len(),
            i <= n,
            forall|j: int| 0 <= j < i ==> s@[j] != '\\',
        decreases n - i,
    {
        if s.get_char(i) == '\\' {
            return true;
        }
        i = i + 1;
    }
    false
}

fn is_absolute_path(p: &str) -> (r: bool)
    ensures
        r == is_absolute(p@),
{
    let n = p.unicode_len();
    (n > 0 && is_separator_char(p.get_char(0))) || (n >= 2 && p.get_char(1) == ':')
}

/// `base` extended by `rel`, as [`path_join`] describes.
pub fn join_path(base: &str, rel: &str) -> (r: String)
    ensures
        r@ == path_join(base@, rel@),
{
    let n = base.unicode_len();
    if rel.unicode_len() == 0 {
        return String::from_str(base);
    }
    if is_absolute_path(rel) || n == 0 {
        return String::from_str(rel);
    }
    let mut out = String::from_str(base);
    if !is_separator_char(base.get_char(n - 1)) {
        if contains_backslash(base) {
            proof {
                reveal_strlit("\\");
            }
            out.append("\\");
        } else {
            proof {
                reveal_strlit("/");
            }
            out.append("/");
        }
    }
    out.append(rel);
    out
}

} // verus!
