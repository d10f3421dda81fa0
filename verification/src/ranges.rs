use vstd::prelude::*;
use vstd::seq_lib::lemma_seq_contains_after_push;
use crate::keys::ascending;

verus! {

/// The members of `numbers` from `lo` to `hi`, both included, in ascending
/// order.
pub open spec fn numbers_between(numbers: Set<u16>, lo: int, hi: int) -> Seq<u16>
    decreases hi - lo + 1,
{
    if hi < lo {
        Seq::empty()
    } else if 0 <= hi <= 0xFFFF && numbers.contains(hi as u16) {
        numbers_between(numbers, lo, hi - 1).push(hi as u16)
    } else {
        numbers_between(numbers, lo, hi - 1)
    }
}

/// `numbers_between` holds each member of the range once, and nothing else,
/// in ascending order.
pub proof fn lemma_numbers_between(numbers: Set<u16>, lo: int, hi: int)
    ensures
        ascending(numbers_between(numbers, lo, hi)),
        forall|k: u16| #[trigger]
            numbers_between(numbers, lo, hi).contains(k) <==> numbers.contains(k) && lo <= k <= hi,
    decreases hi - lo + 1,
{
    let s = numbers_between(numbers, lo, hi);
    if hi >= lo {
        let head = numbers_between(numbers, lo, hi - 1);
        lemma_numbers_between(numbers, lo, hi - 1);
        if 0 <= hi <= 0xFFFF && numbers.contains(hi as u16) {
            let top = hi as u16;
            assert(s == head.push(top));
            assert forall|i: int, j: int| 0 <= i < j < s.len() implies s[i] < s[j] by {
                assert(s[i] == head[i]);
                assert(head.contains(head[i]));
                assert(lo <= head[i] <= hi - 1);
                if j < head.len() {
                    assert(s[j] == head[j]);
                } else {
                    assert(s[j] == top);
                }
            }
            assert forall|k: u16| s.contains(k) <==> numbers.contains(k) && lo <= k <= hi by {
                lemma_seq_contains_after_push(head, top, k);
                assert(head.contains(k) <==> numbers.contains(k) && lo <= k <= hi - 1);
            }
        }
    }
}

/// An ascending sequence that holds exactly the members of a range is the
/// sequence of those members.
pub proof fn lemma_ascending_is_between(s: Seq<u16>, numbers: Set<u16>, lo: int, hi: int)
    requires
        ascending(s),
        forall|k: u16| #[trigger] s.contains(k) <==> numbers.contains(k) && lo <= k <= hi,
    ensures
        s == numbers_between(numbers, lo, hi),
    decreases hi - lo + 1,
{
    if hi < lo {
        if s.len() > 0 {
            assert(s.contains(s[0]));
        }
        assert(s == Seq::<u16>::empty());
    } else if 0 <= hi <= 0xFFFF && numbers.contains(hi as u16) {
        let top = hi as u16;
        assert(s.contains(top));
        let at = choose|i: int| 0 <= i < s.len() && s[i] == top;
        if at < s.len() - 1 {
            assert(s.contains(s[at + 1]));
        }
        let head = s.drop_last();
        assert(s == head.push(top));
        assert forall|i: int, j: int| 0 <= i < j < head.len() implies head[i] < head[j] by {
            assert(head[i] == s[i] && head[j] == s[j]);
        }
        assert forall|k: u16| head.contains(k) <==> numbers.contains(k) && lo <= k <= hi - 1 by {
            lemma_seq_contains_after_push(head, top, k);
            if head.contains(k) {
                let i = choose|i: int| 0 <= i < head.len() && head[i] == k;
                assert(s[i] == k);
            }
        }
        lemma_ascending_is_between(head, numbers, lo, hi - 1);
    } else {
        assert forall|k: u16| s.contains(k) <==> numbers.contains(k) && lo <= k <= hi - 1 by {
            if s.contains(k) {
                assert(numbers.contains(k) && lo <= k <= hi);
            }
        }
        lemma_ascending_is_between(s, numbers, lo, hi - 1);
    }
}

/// Picks from ascending `keys` those from `start` to `end`, both included.
pub fn select_range(keys: &Vec<u16>, start: u16, end: u16) -> (picked: Vec<u16>)
    requires
        ascending(keys@),
    ensures
        picked@ == numbers_between(keys@.to_set(), start as int, end as int),
{
    let mut picked: Vec<u16> = Vec::new();
    let mut i: usize = 0;
    while i < keys.len()
        invariant
            i <= keys.len(),
            ascending(keys@),
            ascending(picked@),
            forall|a: int, j: int|
                0 <= a < picked.len() && i <= j < keys.len() ==> picked[a] < keys[j],
            forall|k: u16| #[trigger]
                picked@.contains(k) <==> keys@.subrange(0, i as int).contains(k) && start <= k
                    <= end,
        decreases keys.len() - i,
    {
        let k = keys[i];
        let ghost before = picked@;
        let ghost seen = keys@.subrange(0, i as int);
        proof {
            assert(keys@.subrange(0, i + 1) == seen.push(k));
        }
        if start <= k && k <= end {
            picked.push(k);
            proof {
                assert forall|a: int, b: int| 0 <= a < b < picked.len() implies picked[a]
                    < picked[b] by {
                    assert(picked[a] == before[a]);
                    if b < before.len() {
                        assert(picked[b] == before[b]);
                    }
                }
            }
        }
        proof {
            assert forall|x: u16| #[trigger]
                picked@.contains(x) <==> seen.push(k).contains(x) && start <= x <= end by {
                lemma_seq_contains_after_push(seen, k, x);
                lemma_seq_contains_after_push(before, k, x);
                assert(before.contains(x) <==> seen.contains(x) && start <= x <= end);
            }
        }
        i += 1;
    }
    proof {
        assert(keys@.subrange(0, keys.len() as int) == keys@);
        assert forall|k: u16|
            picked@.contains(k) <==> keys@.to_set().contains(k) && start <= k <= end by {}
        lemma_ascending_is_between(picked@, keys@.to_set(), start as int, end as int);
    }
    picked
}

} // verus!
