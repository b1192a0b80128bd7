//! Verified path-string helpers: extracting the file extension and
//! deriving the intermediate paths of multi-stage pipelines.

use vstd::prelude::*;

verus! {

use vstd::string::StrSliceExecFns;
use vstd::string::StringExecFns;
use crate::text::{lower, lower_char};

/// The largest index of `c` in `s`, or `-1` if `c` does not occur.
pub open spec fn last_index_of(s: Seq<char>, c: char) -> int
    decreases s.len(),
{
    if s.len() == 0 {
        -1
    } else if s[s.len() - 1] == c {
        s.len() - 1
    } else {
        last_index_of(s.drop_last(), c)
    }
}

proof fn lemma_last_index_step(s: Seq<char>, i: int, c: char)
    requires
        0 <= i < s.len(),
    ensures
        last_index_of(s.subrange(0, i + 1), c) == if s[i] == c {
            i
        } else {
            last_index_of(s.subrange(0, i), c)
        },
{
    let t = s.subrange(0, i + 1);
    assert(t[t.len() - 1] == s[i]);
    assert(t.drop_last() =~= s.subrange(0, i));
}

proof fn lemma_last_index_bounds(s: Seq<char>, c: char)
    ensures
        -1 <= last_index_of(s, c) < s.len(),
    decreases s.len(),
{
    if s.len() > 0 && s[s.len() - 1] != c {
        lemma_last_index_bounds(s.drop_last(), c);
    }
}

/// The index of the dot that separates the extension from the file stem,
/// or `-1` when the path has no extension: a dot counts only when it comes
/// after the last path separator and is not the first character of the
/// file name (a leading dot marks a hidden file, not an extension).
pub open spec fn ext_dot(p: Seq<char>) -> int {
    if last_index_of(p, '.') > last_index_of(p, '/') + 1 {
        last_index_of(p, '.')
    } else {
        -1
    }
}

/// The extension of `p`, without its dot, or `None` when there is none.
pub open spec fn ext_of(p: Seq<char>) -> Option<Seq<char>> {
    if ext_dot(p) >= 0 {
        Some(p.subrange(ext_dot(p) + 1, p.len() as int))
    } else {
        None
    }
}

/// Finds the index of the extension's dot, as `ext_dot` defines it.
fn find_ext_dot(path: &str) -> (r: Option<usize>)
    ensures
        match r {
            Some(d) => ext_dot(path@) == d as int,
            None => ext_dot(path@) == -1,
        },
{
    let len = path.unicode_len();
    let mut last_dot: Option<usize> = None;
    let mut last_slash: Option<usize> = None;
    let mut i: usize = 0;
    proof {
        assert(path@.subrange(0, 0) =~= Seq::<char>::empty());
    }
    while i < len
        invariant
            0 <= i <= len,
            len == path@.len(),
            match last_dot {
                Some(d) => 0 <= d < i && last_index_of(path@.subrange(0, i as int), '.') == d,
                None => last_index_of(path@.subrange(0, i as int), '.') == -1,
            },
            match last_slash {
                Some(d) => 0 <= d < i && last_index_of(path@.subrange(0, i as int), '/') == d,
                None => last_index_of(path@.subrange(0, i as int), '/') == -1,
            },
        decreases len - i,
    {
        let c = path.get_char(i);
        proof {
            lemma_last_index_step(path@, i as int, '.');
            lemma_last_index_step(path@, i as int, '/');
        }
        if c == '.' {
            last_dot = Some(i);
        } else if c == '/' {
            last_slash = Some(i);
        }
        i = i + 1;
    }
    proof {
        assert(path@.subrange(0, len as int) =~= path@);
    }
    match (last_dot, last_slash) {
        (Some(d), Some(s)) => if d > s + 1 {
            Some(d)
        } else {
            None
        },
        (Some(d), None) => if d > 0 {
            Some(d)
        } else {
            None
        },
        _ => None,
    }
}

/// The extension of `path`, without its dot, or `None` when the path has
/// none.  A dot that starts the file name does not begin an extension.
pub fn resolve_extension(path: &str) -> (r: Option<String>)
    ensures
        match r {
            Some(e) => ext_of(path@) matches Some(x) && x == e@,
            None => ext_of(path@) is None,
        },
{
    let len = path.unicode_len();
    match find_ext_dot(path) {
        Some(d) => {
            proof {
                lemma_last_index_bounds(path@, '.');
            }
            Some(path.substring_char(d + 1, len).to_owned())
        },
        None => None,
    }
}

/// `p` with its extension replaced by `e` (or with `.e` appended when `p`
/// has no extension), as a path type's extension-replacement would do it.
pub open spec fn with_ext(p: Seq<char>, e: Seq<char>) -> Seq<char> {
    if ext_dot(p) >= 0 {
        p.subrange(0, ext_dot(p)) + seq!['.'] + e
    } else {
        p + seq!['.'] + e
    }
}

/// Replaces the extension of `path` by `new_ext`; a path without an
/// extension gets `.new_ext` appended.  Pipelines with an intermediate
/// stage name it this way, e.g. `o.webp` becomes `o.step1`.
pub fn replace_extension(path: &str, new_ext: &str) -> (r: String)
    ensures
        r@ == with_ext(path@, new_ext@),
{
    let len = path.unicode_len();
    let mut stem: String = match find_ext_dot(path) {
        Some(d) => {
            proof {
                lemma_last_index_bounds(path@, '.');
            }
            path.substring_char(0, d).to_owned()
        },
        None => path.to_owned(),
    };
    stem.append(".");
    stem.append(new_ext);
    proof {
        reveal_strlit(".");
        assert("."@ =~= seq!['.']);
    }
    stem
}

/// ASCII lower-casing never makes or unmakes a dot or a path separator.
proof fn lemma_sep_char(x: char, c: char)
    requires
        c == '.' || c == '/',
    ensures
        (lower_char(x) == c) == (x == c),
{
}

/// Two paths equal up to ASCII case have their dots and separators in
/// the same places.
proof fn lemma_lower_last_index(s1: Seq<char>, s2: Seq<char>, c: char)
    requires
        lower(s1) == lower(s2),
        c == '.' || c == '/',
    ensures
        last_index_of(s1, c) == last_index_of(s2, c),
    decreases s1.len(),
{
    assert(lower(s1).len() == s1.len());
    assert(lower(s2).len() == s2.len());
    if s1.len() > 0 {
        let n = s1.len() - 1;
        assert((s1[n] == c) == (s2[n] == c)) by {
            assert(lower(s1)[n] == lower_char(s1[n]));
            assert(lower(s2)[n] == lower_char(s2[n]));
            lemma_sep_char(s1[n], c);
            lemma_sep_char(s2[n], c);
        }
        if s1[n] != c {
            assert(lower(s1.drop_last()) =~= lower(s2.drop_last())) by {
                assert forall|i: int| 0 <= i < n implies lower(s1.drop_last())[i] == lower(
                    s2.drop_last(),
                )[i] by {
                    assert(s1.drop_last()[i] == s1[i]);
                    assert(s2.drop_last()[i] == s2[i]);
                    assert(lower(s1.drop_last())[i] == lower_char(s1[i]));
                    assert(lower(s2.drop_last())[i] == lower_char(s2[i]));
                    assert(lower(s1)[i] == lower_char(s1[i]));
                    assert(lower(s2)[i] == lower_char(s2[i]));
                    assert(lower(s1)[i] == lower(s2)[i]);
                }
            }
            lemma_lower_last_index(s1.drop_last(), s2.drop_last(), c);
        }
    }
}

/// Two paths equal up to ASCII case have an extension in the same place,
/// or none at all, and their extensions are equal up to ASCII case.
pub proof fn lemma_lower_ext(p1: Seq<char>, p2: Seq<char>)
    requires
        lower(p1) == lower(p2),
    ensures
        ext_dot(p1) == ext_dot(p2),
        match (ext_of(p1), ext_of(p2)) {
            (Some(e1), Some(e2)) => lower(e1) == lower(e2),
            (None, None) => true,
            _ => false,
        },
{
    assert(lower(p1).len() == p1.len());
    assert(lower(p2).len() == p2.len());
    lemma_lower_last_index(p1, p2, '.');
    lemma_lower_last_index(p1, p2, '/');
    lemma_last_index_bounds(p1, '.');
    if ext_dot(p1) >= 0 {
        let d = ext_dot(p1);
        let e1 = p1.subrange(d + 1, p1.len() as int);
        let e2 = p2.subrange(d + 1, p2.len() as int);
        assert(lower(e1) =~= lower(e2)) by {
            assert forall|i: int| 0 <= i < e1.len() implies lower(e1)[i] == lower(e2)[i] by {
                assert(e1[i] == p1[d + 1 + i]);
                assert(e2[i] == p2[d + 1 + i]);
                assert(lower(e1)[i] == lower_char(p1[d + 1 + i]));
                assert(lower(e2)[i] == lower_char(p2[d + 1 + i]));
                assert(lower(p1)[d + 1 + i] == lower_char(p1[d + 1 + i]));
                assert(lower(p2)[d + 1 + i] == lower_char(p2[d + 1 + i]));
                assert(lower(p1)[d + 1 + i] == lower(p2)[d + 1 + i]);
            }
        }
    }
}

} // verus!
