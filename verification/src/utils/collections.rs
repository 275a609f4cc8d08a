//! Helpers for header maps and other small key-value collections.
//!
//! The maps here are association lists: vectors of key-value pairs in
//! insertion order. Unlike a hash map, such a list has contracts that pin
//! down exactly which pairs a merge or a filter keeps, and in what order.

use vstd::prelude::*;
use crate::utils::string::str_eq;

verus! {

/// The value of the first pair with the given key, if any.
pub open spec fn spec_assoc_first<V>(pairs: Seq<(String, V)>, key: Seq<char>) -> Option<V>
    decreases pairs.len(),
{
    if pairs.len() == 0 {
        None
    } else if pairs[0].0@ == key {
        Some(pairs[0].1)
    } else {
        spec_assoc_first(pairs.drop_first(), key)
    }
}

/// Whether some pair carries the given key.
pub open spec fn spec_assoc_has<V>(pairs: Seq<(String, V)>, key: Seq<char>) -> bool {
    exists|i: int| 0 <= i < pairs.len() && (#[trigger] pairs[i]).0@ == key
}

/// The pairs whose key differs from the given one, in order.
pub open spec fn spec_assoc_without<V>(pairs: Seq<(String, V)>, key: Seq<char>) -> Seq<(String, V)>
    decreases pairs.len(),
{
    if pairs.len() == 0 {
        Seq::empty()
    } else if pairs.last().0@ == key {
        spec_assoc_without(pairs.drop_last(), key)
    } else {
        spec_assoc_without(pairs.drop_last(), key).push(pairs.last())
    }
}

/// The first-match lookup is unchanged by a prefix that holds no match.
proof fn lemma_assoc_first_skip<V>(pairs: Seq<(String, V)>, key: Seq<char>, i: int)
    requires
        0 <= i <= pairs.len(),
        forall|j: int| 0 <= j < i ==> (#[trigger] pairs[j]).0@ != key,
    ensures
        spec_assoc_first(pairs, key) == spec_assoc_first(pairs.skip(i), key),
    decreases i,
{
    if i > 0 {
        lemma_assoc_first_skip(pairs, key, i - 1);
        assert(pairs.skip(i - 1)[0] == pairs[i - 1]);
        assert(pairs.skip(i - 1).drop_first() =~= pairs.skip(i));
    } else {
        assert(pairs.skip(0) =~= pairs);
    }
}

/// Looks up the first value stored under a key.
pub fn assoc_get<'a, V>(pairs: &'a Vec<(String, V)>, key: &str) -> (r: Option<&'a V>)
    ensures
        r is Some <==> spec_assoc_first(pairs@, key@) is Some,
        r matches Some(v) ==> Some(*v) == spec_assoc_first(pairs@, key@),
{
    let n = pairs.len();
    let mut i: usize = 0;
    while i < n
        invariant
            0 <= i <= n,
            n == pairs@.len(),
            forall|j: int| 0 <= j < i ==> (#[trigger] pairs@[j]).0@ != key@,
        decreases n - i,
    {
        if str_eq(pairs[i].0.as_str(), key) {
            proof {
                lemma_assoc_first_skip(pairs@, key@, i as int);
                assert(pairs@.skip(i as int)[0] == pairs@[i as int]);
            }
            return Some(&pairs[i].1);
        }
        i += 1;
    }
    proof {
        lemma_assoc_first_skip(pairs@, key@, n as int);
        assert(pairs@.skip(n as int) =~= Seq::<(String, V)>::empty());
    }
    None
}

/// Checks whether some pair carries the given key.
pub fn assoc_has_key<V>(pairs: &Vec<(String, V)>, key: &str) -> (r: bool)
    ensures
        r == spec_assoc_has(pairs@, key@),
{
    let n = pairs.len();
    let mut i: usize = 0;
    while i < n
        invariant
            0 <= i <= n,
            n == pairs@.len(),
            forall|j: int| 0 <= j < i ==> (#[trigger] pairs@[j]).0@ != key@,
        decreases n - i,
    {
        if str_eq(pairs[i].0.as_str(), key) {
            return true;
        }
        i += 1;
    }
    false
}

/// Stores a value under a key: every pair carrying the key goes, and the new
/// pair comes last.
#[verifier::loop_isolation(false)]
pub fn assoc_set<V>(pairs: Vec<(String, V)>, key: String, value: V) -> (r: Vec<(String, V)>)
    ensures
        r@ == spec_assoc_without(pairs@, key@).push((key, value)),
{
    let ghost snapshot = pairs@;
    let mut kept: Vec<(String, V)> = Vec::new();
    let mut rem = pairs;
    let ghost mut k: int = 0;
    while rem.len() > 0
        invariant
            0 <= k <= snapshot.len(),
            rem@ =~= snapshot.skip(k),
            kept@ == spec_assoc_without(snapshot.take(k), key@),
        decreases rem@.len(),
    {
        let p = rem.remove(0);
        proof {
            assert(p == snapshot[k]);
            assert(rem@ =~= snapshot.skip(k + 1));
            assert(snapshot.take(k + 1).drop_last() =~= snapshot.take(k));
            assert(snapshot.take(k + 1).last() == snapshot[k]);
        }
        if !str_eq(p.0.as_str(), key.as_str()) {
            kept.push(p);
        }
        proof {
            k = k + 1;
        }
    }
    proof {
        assert(snapshot.take(k) =~= snapshot);
    }
    let mut result = kept;
    result.push((key, value));
    result
}

/// The pairs of the base map that a merge keeps: those whose key does not
/// appear in the overlay, in their original order.
pub open spec fn spec_merge_kept<V>(base: Seq<(String, V)>, overlay: Seq<(String, V)>) -> Seq<(String, V)>
    decreases base.len(),
{
    if base.len() == 0 {
        Seq::empty()
    } else if spec_assoc_has(overlay, base.last().0@) {
        spec_merge_kept(base.drop_last(), overlay)
    } else {
        spec_merge_kept(base.drop_last(), overlay).push(base.last())
    }
}

/// Merges two maps; values from the overlay take precedence.
///
/// The result holds the base pairs whose keys the overlay does not override,
/// in their original order, followed by every overlay pair.
#[verifier::loop_isolation(false)]
pub fn merge_hashmaps<V>(base: Vec<(String, V)>, overlay: Vec<(String, V)>) -> (r: Vec<(String, V)>)
    ensures
        r@ == spec_merge_kept(base@, overlay@) + overlay@,
{
    let ghost base_snapshot = base@;
    let mut kept: Vec<(String, V)> = Vec::new();
    let mut rem = base;
    let ghost mut k: int = 0;
    while rem.len() > 0
        invariant
            0 <= k <= base_snapshot.len(),
            rem@ =~= base_snapshot.skip(k),
            kept@ == spec_merge_kept(base_snapshot.take(k), overlay@),
        decreases rem@.len(),
    {
        let p = rem.remove(0);
        proof {
            assert(p == base_snapshot[k]);
            assert(rem@ =~= base_snapshot.skip(k + 1));
            assert(base_snapshot.take(k + 1).drop_last() =~= base_snapshot.take(k));
            assert(base_snapshot.take(k + 1).last() == base_snapshot[k]);
        }
        if !assoc_has_key(&overlay, p.0.as_str()) {
            kept.push(p);
        }
        proof {
            k = k + 1;
        }
    }
    proof {
        assert(base_snapshot.take(k) =~= base_snapshot);
    }
    let mut result = kept;
    let mut tail = overlay;
    result.append(&mut tail);
    result
}

/// The pairs kept by a run of verdicts, one verdict per pair: a pair stays
/// exactly when its verdict is true, in order.
pub open spec fn spec_filtered_by<V>(src: Seq<(String, V)>, verdicts: Seq<bool>) -> Seq<(String, V)>
    decreases src.len(),
{
    if src.len() == 0 {
        Seq::empty()
    } else {
        let rest = spec_filtered_by(src.drop_last(), verdicts.drop_last());
        if verdicts.last() {
            rest.push(src.last())
        } else {
            rest
        }
    }
}

/// Keeps the pairs whose key the predicate accepts, in order.
///
/// The result is exactly the subsequence of the input selected by one run
/// of the predicate over the keys: for some sequence of verdicts, one per
/// input pair and each a possible answer of the predicate on that pair's
/// key, the result keeps precisely the pairs with a true verdict, in their
/// original order.
#[verifier::loop_isolation(false)]
pub fn filter_map_by_key<V, F: Fn(&String) -> bool>(map: Vec<(String, V)>, predicate: F) -> (r: Vec<(String, V)>)
    requires
        forall|k: &String| call_requires(predicate, (k,)),
    ensures
        exists|verdicts: Seq<bool>|
            {
                &&& verdicts.len() == map@.len()
                &&& r@ == #[trigger] spec_filtered_by(map@, verdicts)
                &&& forall|j: int| 0 <= j < map@.len() ==> call_ensures(
                    predicate,
                    (&map@[j].0,),
                    verdicts[j],
                )
            },
{
    let ghost map_snapshot = map@;
    let mut out: Vec<(String, V)> = Vec::new();
    let mut rem = map;
    let ghost mut k: int = 0;
    let ghost mut verdicts: Seq<bool> = Seq::empty();
    while rem.len() > 0
        invariant
            0 <= k <= map_snapshot.len(),
            rem@ =~= map_snapshot.skip(k),
            verdicts.len() == k,
            out@ == spec_filtered_by(map_snapshot.take(k), verdicts),
            forall|j: int| 0 <= j < k ==> call_ensures(
                predicate,
                (&map_snapshot[j].0,),
                verdicts[j],
            ),
        decreases rem@.len(),
    {
        let p = rem.remove(0);
        proof {
            assert(p == map_snapshot[k]);
            assert(rem@ =~= map_snapshot.skip(k + 1));
        }
        let keep = predicate(&p.0);
        proof {
            assert(map_snapshot.take(k + 1).drop_last() =~= map_snapshot.take(k));
            assert(map_snapshot.take(k + 1).last() == map_snapshot[k]);
            assert(verdicts.push(keep).drop_last() =~= verdicts);
        }
        if keep {
            out.push(p);
        }
        proof {
            verdicts = verdicts.push(keep);
            k = k + 1;
        }
    }
    proof {
        assert(map_snapshot.take(k) =~= map_snapshot);
        assert(map_snapshot == map@);
        assert(out@ == spec_filtered_by(map@, verdicts));
    }
    out
}

} // verus!
