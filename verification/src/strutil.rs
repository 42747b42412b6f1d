//! Character-level string utilities.
//!
//! The command interpreter and the control-message codec both work by
//! splitting a line on its first ASCII space; this module defines that split
//! once, as spec functions over `Seq<char>` with executable counterparts.

use vstd::prelude::*;
use vstd::string::*;

verus! {

/// Index of the first space in `s` at or after position `i`; `s.len()` if none.
pub open spec fn space_at(s: Seq<char>, i: int) -> int
    decreases s.len() - i,
{
    if i < 0 || i >= s.len() {
        s.len() as int
    } else if s[i] == ' ' {
        i
    } else {
        space_at(s, i + 1)
    }
}

/// Index of the first space of `s`; `s.len()` if `s` holds no space.
pub open spec fn first_space(s: Seq<char>) -> int {
    space_at(s, 0)
}

pub open spec fn has_space(s: Seq<char>) -> bool {
    first_space(s) < s.len()
}

/// What stands before the first space; the whole string if there is none.
pub open spec fn split_head(s: Seq<char>) -> Seq<char> {
    s.subrange(0, first_space(s))
}

/// What stands after the first space; empty if there is none.
pub open spec fn split_tail(s: Seq<char>) -> Seq<char> {
    if has_space(s) {
        s.subrange(first_space(s) + 1, s.len() as int)
    } else {
        Seq::empty()
    }
}

/// The views of a sequence of strings.
pub open spec fn views_of(v: Seq<String>) -> Seq<Seq<char>> {
    v.map_values(|s: String| s@)
}

pub proof fn lemma_space_at_bounds(s: Seq<char>, i: int)
    requires
        0 <= i <= s.len(),
    ensures
        i <= space_at(s, i) <= s.len(),
        space_at(s, i) < s.len() ==> s[space_at(s, i)] == ' ',
        forall|k: int| i <= k < space_at(s, i) ==> s[k] != ' ',
    decreases s.len() - i,
{
    if i < s.len() && s[i] != ' ' {
        lemma_space_at_bounds(s, i + 1);
    }
}

/// If position `j` holds the first space at or after `i`, `space_at` finds it.
pub proof fn lemma_space_at_found(s: Seq<char>, i: int, j: int)
    requires
        0 <= i <= j < s.len(),
        s[j] == ' ',
        forall|k: int| i <= k < j ==> s[k] != ' ',
    ensures
        space_at(s, i) == j,
    decreases j - i,
{
    if i < j {
        lemma_space_at_found(s, i + 1, j);
    }
}

/// If `s` holds no space at all, `space_at` reports its length.
pub proof fn lemma_space_at_none(s: Seq<char>, i: int)
    requires
        0 <= i <= s.len(),
        forall|k: int| i <= k < s.len() ==> s[k] != ' ',
    ensures
        space_at(s, i) == s.len(),
    decreases s.len() - i,
{
    if i < s.len() {
        lemma_space_at_none(s, i + 1);
    }
}

/// Index of the first space of `s`, or its character length if none.
pub fn find_first_space(s: &str) -> (r: usize)
    ensures
        r as int == first_space(s@),
{
    let n = s.unicode_len();
    let mut i: usize = 0;
    while i < n
        invariant
            n == s@.len(),
            0 <= i <= n,
            forall|k: int| 0 <= k < i ==> s@[k] != ' ',
        decreases n - i,
    {
        if s.get_char(i) == ' ' {
            proof {
                lemma_space_at_found(s@, 0, i as int);
            }
            return i;
        }
        i = i + 1;
    }
    proof {
        lemma_space_at_none(s@, 0);
    }
    n
}

/// Splits `s` at its first space, as `str::split_once(" ")` does, with the
/// whole string and an empty remainder when `s` holds no space.
pub fn split_first_space<'a>(s: &'a str) -> (r: (&'a str, &'a str))
    ensures
        r.0@ == split_head(s@),
        r.1@ == split_tail(s@),
{
    let n = s.unicode_len();
    let i = find_first_space(s);
    proof {
        lemma_space_at_bounds(s@, 0);
    }
    if i < n {
        let head = s.substring_char(0, i);
        let tail = s.substring_char(i + 1, n);
        (head, tail)
    } else {
        proof {
            reveal_strlit("");
            assert(s@.subrange(0, first_space(s@)) =~= s@);
            assert(""@ =~= Seq::<char>::empty());
        }
        (s, "")
    }
}

/// Character-wise string equality.
pub fn str_eq(a: &str, b: &str) -> (r: bool)
    ensures
        r == (a@ == b@),
{
    let na = a.unicode_len();
    let nb = b.unicode_len();
    if na != nb {
        return false;
    }
    let mut i: usize = 0;
    while i < na
        invariant
            na == a@.len(),
            nb == b@.len(),
            na == nb,
            0 <= i <= na,
            forall|k: int| 0 <= k < i ==> a@[k] == b@[k],
        decreases na - i,
    {
        if a.get_char(i) != b.get_char(i) {
            return false;
        }
        i = i + 1;
    }
    proof {
        assert(a@ =~= b@);
    }
    true
}

/// Position of the first string of `v` that reads `t`; `v.len()` if none does.
pub fn str_position(v: &Vec<String>, t: &str) -> (r: usize)
    ensures
        r <= v@.len(),
        r < v@.len() ==> views_of(v@)[r as int] == t@ && (forall|k: int|
            0 <= k < r ==> views_of(v@)[k] != t@),
        r == v@.len() ==> !views_of(v@).contains(t@),
{
    let n = v.len();
    let mut i: usize = 0;
    while i < n
        invariant
            n == v@.len(),
            0 <= i <= n,
            forall|k: int| 0 <= k < i ==> v@[k]@ != t@,
        decreases n - i,
    {
        if str_eq(v[i].as_str(), t) {
            return i;
        }
        i = i + 1;
    }
    proof {
        assert(forall|k: int| 0 <= k < v@.len() ==> views_of(v@)[k] == v@[k]@);
    }
    n
}

/// Whether one of the strings of `v` reads `t`.
pub fn vec_contains_str(v: &Vec<String>, t: &str) -> (r: bool)
    ensures
        r == views_of(v@).contains(t@),
{
    let n = v.len();
    let mut i: usize = 0;
    while i < n
        invariant
            n == v@.len(),
            0 <= i <= n,
            forall|k: int| 0 <= k < i ==> v@[k]@ != t@,
        decreases n - i,
    {
        if str_eq(v[i].as_str(), t) {
            proof {
                assert(views_of(v@)[i as int] == v@[i as int]@);
            }
            return true;
        }
        i = i + 1;
    }
    proof {
        assert(forall|k: int| 0 <= k < v@.len() ==> views_of(v@)[k] == v@[k]@);
    }
    false
}

} // verus!
