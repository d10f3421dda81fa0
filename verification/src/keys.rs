use std::collections::BTreeMap;
use vstd::prelude::*;
use vstd::laws_cmp::obeys_cmp;
use vstd::std_specs::btree::{axiom_increasing_seq_meaning, increasing_seq};
use vstd::std_specs::cmp::OrdSpec;
use vstd::std_specs::iter::IteratorSpec;

verus! {

/// Whether the numbers of `s` rise from each to the next.
pub open spec fn ascending(s: Seq<u16>) -> bool {
    forall|i: int, j: int| 0 <= i < j < s.len() ==> s[i] < s[j]
}

/// What a map hands out as its keys in increasing order rises from each key
/// to the next.
proof fn lemma_increasing_keys(s: Seq<&u16>)
    requires
        increasing_seq(s),
    ensures
        forall|i: int, j: int| 0 <= i < j < s.len() ==> *s[i] < *s[j],
{
    assert(obeys_cmp::<&u16>());
    axiom_increasing_seq_meaning::<&u16>(s);
    assert forall|i: int, j: int| 0 <= i < j < s.len() implies *s[i] < *s[j] by {
        assert((&s[i]).cmp_spec(&s[j]) is Less);
    }
}

/// The keys of a map, in ascending order.
pub fn sorted_keys(m: &BTreeMap<u16, String>) -> (keys: Vec<u16>)
    ensures
        ascending(keys@),
        forall|k: u16| keys@.contains(k) <==> m@.contains_key(k),
{
    let mut keys: Vec<u16> = Vec::new();
    for k in it: m.keys()
        invariant
            it.seq() == m.keys().remaining(),
            keys@.len() == it.index(),
            forall|i: int| 0 <= i < keys.len() ==> keys[i] == *it.seq()[i],
    {
        keys.push(*k);
    }
    proof {
        let s = m.keys().remaining();
        assert(keys@ == s.unref());
        assert(s.unref().to_set() == m@.dom());
        lemma_increasing_keys(s);
        assert forall|k: u16| keys@.contains(k) <==> m@.contains_key(k) by {
            assert(keys@.to_set().contains(k) <==> m@.dom().contains(k));
        }
    }
    keys
}

} // verus!
