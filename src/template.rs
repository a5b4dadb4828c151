//! The server's subnet template and the substitution of its placeholder.

use vstd::prelude::*;
use vstd::string::*;

verus! {

/// The placeholder token that a subnet template holds: `{address}`.
pub open spec fn placeholder_chars() -> Seq<char> {
    seq!['{', 'a', 'd', 'd', 'r', 'e', 's', 's', '}']
}

/// Whether the placeholder stands in `t` at position `i`.
pub open spec fn occurs_at(t: Seq<char>, i: int) -> bool {
    0 <= i && i + placeholder_chars().len() <= t.len()
        && t.subrange(i, i + placeholder_chars().len()) == placeholder_chars()
}

/// Whether `i` is the first position at which the placeholder stands in `t`.
pub open spec fn first_occurrence(t: Seq<char>, i: int) -> bool {
    occurs_at(t, i) && forall|j: int| 0 <= j < i ==> !occurs_at(t, j)
}

/// `t` with its first placeholder replaced by `v`; `t` itself where it holds none.
pub open spec fn substituted(t: Seq<char>, v: Seq<char>) -> Seq<char> {
    if exists|i: int| first_occurrence(t, i) {
        let i = choose|i: int| first_occurrence(t, i);
        t.subrange(0, i) + v + t.subrange(i + placeholder_chars().len(), t.len() as int)
    } else {
        t
    }
}

/// The placeholder token, `{address}`.
pub fn placeholder() -> (r: &'static str)
    ensures
        r@ == placeholder_chars(),
{
    let r = "{address}";
    proof {
        reveal_strlit("{address}");
        assert(r@ =~= placeholder_chars());
    }
    r
}

fn matches_at(t: &str, n: usize, i: usize) -> (r: bool)
    requires
        n == t@.len(),
        i <= n,
    ensures
        r == occurs_at(t@, i as int),
{
    let p = placeholder();
    let m: usize = 9;
    if n - i < m {
        return false;
    }
    let mut k: usize = 0;
    while k < m
        invariant
            p@ == placeholder_chars(),
            m == placeholder_chars().len(),
            n == t@.len(),
            i + m <= n,
            k <= m,
            forall|j: int| 0 <= j < k ==> t@[i + j] == placeholder_chars()[j],
        decreases m - k,
    {
        if t.get_char(i + k) != p.get_char(k) {
            return false;
        }
        k = k + 1;
    }
    assert(t@.subrange(i as int, i + m) =~= placeholder_chars());
    true
}

/// Replaces the first placeholder of `template` with `value`, and leaves
/// every other character of `template` as it was. A template without the
/// placeholder comes back unchanged.
pub fn substitute_placeholder(template: &str, value: &str) -> (r: String)
    ensures
        r@ == substituted(template@, value@),
{
    let n = template.unicode_len();
    let mut i: usize = 0;
    while i < n
        invariant
            n == template@.len(),
            i <= n,
            forall|j: int| 0 <= j < i ==> !occurs_at(template@, j),
        decreases n - i,
    {
        if matches_at(template, n, i) {
            assert(first_occurrence(template@, i as int));
            let mut r = String::from_str(template.substring_char(0, i));
            r.append(value);
            r.append(template.substring_char(i + 9, n));
            proof {
                let c = choose|c: int| first_occurrence(template@, c);
                assert(c == i) by {
                    if c < i {
                        assert(!occurs_at(template@, c));
                    } else if i < c {
                        assert(!occurs_at(template@, i as int));
                    }
                }
            }
            return r;
        }
        i = i + 1;
    }
    assert(!exists|c: int| first_occurrence(template@, c));
    String::from_str(template)
}

/// A template that holds the placeholder has exactly one placeholder
/// replaced, the first: every character before it and after it is kept.
pub proof fn lemma_substitution_replaces_once(t: Seq<char>, v: Seq<char>, i: int)
    requires
        occurs_at(t, i),
    ensures
        exists|j: int|
            0 <= j <= i && #[trigger] first_occurrence(t, j) && substituted(t, v) == t.subrange(0, j) + v
                + t.subrange(j + placeholder_chars().len(), t.len() as int),
        substituted(t, v).len() == t.len() - placeholder_chars().len() + v.len(),
    decreases i,
{
    if exists|k: int| 0 <= k < i && occurs_at(t, k) {
        let k = choose|k: int| 0 <= k < i && occurs_at(t, k);
        lemma_substitution_replaces_once(t, v, k);
    } else {
        assert(first_occurrence(t, i));
        let c = choose|c: int| first_occurrence(t, c);
        assert(c == i) by {
            if c < i {
                assert(occurs_at(t, c));
            } else if i < c {
                assert(!occurs_at(t, i));
            }
        }
    }
}

/// A template without the placeholder is left as it is.
pub proof fn lemma_substitution_without_placeholder(t: Seq<char>, v: Seq<char>)
    requires
        forall|i: int| !occurs_at(t, i),
    ensures
        substituted(t, v) == t,
{
}

} // verus!
