//! First-match search over sequences, the model of `iter().position(..)`
//! and `iter().find(..)`.

use crate::text::{opt_str, pairs, text_eq};
use vstd::prelude::*;

verus! {

/// Index of the first element of `s` satisfying `p`, or `-1` when none does.
pub open spec fn first_index_where<T>(s: Seq<T>, p: spec_fn(T) -> bool) -> int
    decreases s.len(),
{
    if s.len() == 0 {
        -1
    } else if p(s[0]) {
        0
    } else {
        let r = first_index_where(s.drop_first(), p);
        if r < 0 {
            -1
        } else {
            r + 1
        }
    }
}

/// `k` is the first position of `s` whose element satisfies `p`.
pub open spec fn is_first_match<T>(s: Seq<T>, p: spec_fn(T) -> bool, k: int) -> bool {
    &&& 0 <= k < s.len()
    &&& p(s[k])
    &&& forall|j: int| 0 <= j < k ==> !p(#[trigger] s[j])
}

/// No element of `s` satisfies `p`.
pub open spec fn no_match<T>(s: Seq<T>, p: spec_fn(T) -> bool) -> bool {
    forall|j: int| 0 <= j < s.len() ==> !p(#[trigger] s[j])
}

/// What `first_index_where` is: the first match, or `-1` exactly when there is
/// no match.
pub proof fn lemma_first_index_where<T>(s: Seq<T>, p: spec_fn(T) -> bool)
    ensures
        -1 <= first_index_where(s, p) < s.len(),
        first_index_where(s, p) == -1 <==> no_match(s, p),
        first_index_where(s, p) >= 0 ==> is_first_match(s, p, first_index_where(s, p)),
    decreases s.len(),
{
    if s.len() > 0 {
        let t = s.drop_first();
        lemma_first_index_where(t, p);
        if !p(s[0]) {
            let r = first_index_where(t, p);
            if r >= 0 {
                assert forall|j: int| 0 <= j < r + 1 implies !p(#[trigger] s[j]) by {
                    if j > 0 {
                        assert(s[j] == t[j - 1]);
                    }
                }
                assert(!no_match(s, p)) by {
                    assert(s[r + 1] == t[r]);
                }
            } else {
                assert forall|j: int| 0 <= j < s.len() implies !p(#[trigger] s[j]) by {
                    if j > 0 {
                        assert(s[j] == t[j - 1]);
                    }
                }
            }
        } else {
            assert(!no_match(s, p)) by {
                assert(p(s[0]));
            }
        }
    }
}

/// A first match found any way is the one `first_index_where` gives.
pub proof fn lemma_first_match_unique<T>(s: Seq<T>, p: spec_fn(T) -> bool, k: int)
    requires
        is_first_match(s, p, k),
    ensures
        first_index_where(s, p) == k,
{
    lemma_first_index_where(s, p);
    let r = first_index_where(s, p);
    if r == -1 {
        assert(!p(s[k]));
    } else if r < k {
        assert(!p(s[r]));
    } else if r > k {
        assert(!p(s[k]));
    }
}

/// Searching a sequence through a view of its elements finds the same
/// position, when the predicates agree on each element and its view.
pub proof fn lemma_first_index_where_map<A, B>(
    s: Seq<A>,
    f: spec_fn(A) -> B,
    p: spec_fn(A) -> bool,
    q: spec_fn(B) -> bool,
)
    requires
        forall|a: A| #[trigger] p(a) == q(f(a)),
    ensures
        first_index_where(s, p) == first_index_where(s.map_values(f), q),
    decreases s.len(),
{
    if s.len() > 0 {
        assert(s.map_values(f).drop_first() =~= s.drop_first().map_values(f));
        assert(s.map_values(f)[0] == f(s[0]));
        assert(p(s[0]) == q(f(s[0])));
        lemma_first_index_where_map(s.drop_first(), f, p, q);
    }
}

/// No match anywhere means `first_index_where` is `-1`.
pub proof fn lemma_no_match<T>(s: Seq<T>, p: spec_fn(T) -> bool)
    requires
        no_match(s, p),
    ensures
        first_index_where(s, p) == -1,
{
    lemma_first_index_where(s, p);
}

/// The predicate "the pair's key is `k`".
pub open spec fn key_is(k: Seq<char>) -> spec_fn((Seq<char>, Seq<char>)) -> bool {
    |p: (Seq<char>, Seq<char>)| p.0 == k
}

/// The value of the first pair whose key is `k`.
pub open spec fn lookup_in(m: Seq<(Seq<char>, Seq<char>)>, k: Seq<char>) -> Option<Seq<char>> {
    let i = first_index_where(m, key_is(k));
    if i >= 0 {
        Some(m[i].1)
    } else {
        None
    }
}

/// The value of the first pair whose key is `k`.
pub open spec fn pair_lookup(map: Seq<(String, String)>, k: Seq<char>) -> Option<Seq<char>> {
    lookup_in(pairs(map), k)
}

/// No two pairs share a key: the list stands for a map.
pub open spec fn distinct_keys(m: Seq<(Seq<char>, Seq<char>)>) -> bool {
    forall|i: int, j: int| 0 <= i < j < m.len() ==> #[trigger] m[i].0 != #[trigger] m[j].0
}

/// Law: in a list with distinct keys, looking up the key of any pair gives
/// that pair's value, so the list answers as the map of its pairs.
pub proof fn law_lookup_distinct_keys(m: Seq<(Seq<char>, Seq<char>)>, i: int)
    requires
        distinct_keys(m),
        0 <= i < m.len(),
    ensures
        lookup_in(m, m[i].0) == Some(m[i].1),
{
    let p = key_is(m[i].0);
    assert forall|j: int| 0 <= j < i implies !p(#[trigger] m[j]) by {
        assert(m[j].0 != m[i].0);
    }
    lemma_first_match_unique(m, p, i);
}

/// Looks `key` up in a list of key/value pairs: the value of the first pair
/// with that key.  The lists this library looks up have distinct keys
/// (`distinct_keys`), so this is the map lookup of their pairs.
pub fn lookup_pair(map: &Vec<(String, String)>, key: &str) -> (r: Option<String>)
    ensures
        opt_str(r) == pair_lookup(map@, key@),
{
    let ghost p = key_is(key@);
    let mut i: usize = 0;
    while i < map.len()
        invariant
            i <= map.len(),
            p == key_is(key@),
            forall|j: int| 0 <= j < i ==> !p(#[trigger] pairs(map@)[j]),
        decreases map.len() - i,
    {
        proof {
            assert(pairs(map@)[i as int] == (map@[i as int].0@, map@[i as int].1@));
        }
        if text_eq(map[i].0.as_str(), key) {
            proof {
                lemma_first_match_unique(pairs(map@), p, i as int);
            }
            return Some(map[i].1.clone());
        }
        i = i + 1;
    }
    proof {
        lemma_no_match(pairs(map@), p);
    }
    None
}

} // verus!
