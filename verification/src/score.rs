//! Scores: one named count per actor, and their ranking.

use vstd::prelude::*;

verus! {

/// The score that every actor starts with.
pub const STARTING_SCORE: i32 = 10;

/// The score of one actor.  Each fall costs a point, and nothing stops the
/// count at zero: it goes on below, down to the least value that it holds.
#[derive(Debug)]
pub struct BearScore {
    pub value: i32,
    pub name: String,
}

/// The score of one actor, as the ranking reads it.
#[derive(Clone, Debug)]
pub struct DuckScore {
    pub name: String,
    pub value: i32,
}

/// The score `value` after a fall: one point less, unless it is the least
/// value already.
pub open spec fn after_fall(value: int) -> int {
    if value > i32::MIN {
        value - 1
    } else {
        value
    }
}

impl BearScore {
    pub fn new(name: String) -> (score: BearScore)
        ensures
            score.value == STARTING_SCORE,
            score.name == name,
    {
        BearScore { value: STARTING_SCORE, name }
    }

    /// Takes the point that a fall costs.
    pub fn lose_point(&mut self)
        ensures
            final(self).value == after_fall(old(self).value as int),
            final(self).name == old(self).name,
    {
        if self.value > i32::MIN {
            self.value = self.value - 1;
        }
    }
}

impl DuckScore {
    pub fn new(name: String) -> (score: DuckScore)
        ensures
            score.value == STARTING_SCORE,
            score.name == name,
    {
        DuckScore { name, value: STARTING_SCORE }
    }
}

/// Whether the score at index `a` stands above the one at index `b` in
/// the ranking: the higher score first, and of two equal scores the one
/// that comes first in the list.
pub open spec fn ranks_before(values: Seq<i32>, a: int, b: int) -> bool {
    values[a] > values[b] || (values[a] == values[b] && a < b)
}

/// Whether `order` is the ranking of the scores `values` that are to be
/// seen: it lists the indices of exactly those, each above all that
/// follow it.
pub open spec fn is_ranking(values: Seq<i32>, visible: Seq<bool>, order: Seq<usize>) -> bool {
    &&& forall|i: int| 0 <= i < order.len() ==> #[trigger] order[i] < values.len()
    &&& forall|i: int, j: int|
        0 <= i < j < order.len() ==> ranks_before(values, #[trigger] order[i] as int, #[trigger] order[j] as int)
    &&& forall|k: int|
        0 <= k < values.len() ==> (#[trigger] visible[k] <==> order.contains(k as usize))
}

/// What a sequence holds after an insertion: what it held, and the new
/// element.
proof fn lemma_insert_contains(s: Seq<usize>, at: int, value: usize, k: usize)
    requires
        0 <= at <= s.len(),
    ensures
        s.insert(at, value).contains(k) <==> s.contains(k) || k == value,
{
    let t = s.insert(at, value);
    if s.contains(k) {
        let i = choose|i: int| 0 <= i < s.len() && s[i] == k;
        if i < at {
            assert(t[i] == k);
        } else {
            assert(t[i + 1] == k);
        }
    }
    if k == value {
        assert(t[at] == k);
    }
    if t.contains(k) {
        let i = choose|i: int| 0 <= i < t.len() && t[i] == k;
        if i < at {
            assert(s[i] == k);
        } else if i > at {
            assert(s[i - 1] == k);
        }
    }
}

/// The ranking of the scores that are to be seen: see `is_ranking`.  There
/// is one such ranking only.
pub fn rank_scores(values: &Vec<i32>, visible: &Vec<bool>) -> (order: Vec<usize>)
    requires
        visible.len() == values.len(),
    ensures
        is_ranking(values@, visible@, order@),
{
    let mut order: Vec<usize> = Vec::new();
    let mut i: usize = 0;
    while i < values.len()
        invariant
            i <= values.len(),
            visible.len() == values.len(),
            forall|p: int| 0 <= p < order.len() ==> #[trigger] order[p] < i,
            forall|p: int, q: int|
                0 <= p < q < order.len() ==> ranks_before(
                    values@,
                    #[trigger] order[p] as int,
                    #[trigger] order[q] as int,
                ),
            forall|k: int| 0 <= k < i ==> (#[trigger] visible[k] <==> order@.contains(k as usize)),
        decreases values.len() - i,
    {
        if visible[i] {
            let mut at: usize = 0;
            while at < order.len() && values[order[at]] >= values[i]
                invariant
                    at <= order.len(),
                    i < values.len(),
                    forall|p: int| 0 <= p < order.len() ==> #[trigger] order[p] < i,
                    forall|p: int| 0 <= p < at ==> values[#[trigger] order[p] as int] >= values[i as int],
                decreases order.len() - at,
            {
                at += 1;
            }
            let ghost before = order@;
            order.insert(at, i);
            proof {
                assert forall|p: int, q: int| 0 <= p < q < order.len() implies ranks_before(
                    values@,
                    #[trigger] order[p] as int,
                    #[trigger] order[q] as int,
                ) by {
                    if q < at {
                    } else if q == at {
                        assert(order[p] == before[p]);
                    } else if p < at {
                        assert(order[p] == before[p] && order[q] == before[q - 1]);
                    } else if p == at {
                        assert(order[q] == before[q - 1]);
                        if q - 1 > at {
                            assert(ranks_before(values@, before[at as int] as int, before[q - 1] as int));
                        }
                    } else {
                        assert(order[p] == before[p - 1] && order[q] == before[q - 1]);
                    }
                }
                assert forall|p: int| 0 <= p < order.len() implies #[trigger] order[p] < i + 1 by {
                    if p < at {
                        assert(order[p] == before[p]);
                    } else if p > at {
                        assert(order[p] == before[p - 1]);
                    }
                }
                assert forall|k: int| 0 <= k < i + 1 implies (#[trigger] visible[k]
                    <==> order@.contains(k as usize)) by {
                    lemma_insert_contains(before, at as int, i, k as usize);
                }
            }
        } else {
            proof {
                if order@.contains(i) {
                    let p = choose|p: int| 0 <= p < order.len() && order[p] == i;
                    assert(order[p] < i);
                }
            }
        }
        i += 1;
    }
    order
}

/// The order in which the scores are listed: all of them, ranked.  Entry
/// `i` of the result is the index in `scores` of the score on line `i`.
pub fn update_score_text(scores: &Vec<BearScore>) -> (order: Vec<usize>)
    ensures
        order.len() == scores.len(),
        is_ranking(
            Seq::new(scores.len() as nat, |k: int| scores[k].value),
            Seq::new(scores.len() as nat, |k: int| true),
            order@,
        ),
{
    let mut values: Vec<i32> = Vec::new();
    let mut visible: Vec<bool> = Vec::new();
    let mut i: usize = 0;
    while i < scores.len()
        invariant
            i <= scores.len(),
            values.len() == i,
            visible.len() == i,
            forall|k: int| 0 <= k < i ==> #[trigger] values[k] == scores[k].value,
            forall|k: int| 0 <= k < i ==> #[trigger] visible[k],
        decreases scores.len() - i,
    {
        values.push(scores[i].value);
        visible.push(true);
        i += 1;
    }
    assert(values@ =~= Seq::new(scores.len() as nat, |k: int| scores[k].value));
    assert(visible@ =~= Seq::new(scores.len() as nat, |k: int| true));
    let order = rank_scores(&values, &visible);
    proof {
        lemma_ranking_is_full(values@, visible@, order@);
    }
    order
}

/// A ranking lists no index twice, and where every score is to be seen it
/// lists them all: it is as long as the list of scores.
pub proof fn lemma_ranking_is_full(values: Seq<i32>, visible: Seq<bool>, order: Seq<usize>)
    requires
        is_ranking(values, visible, order),
        visible.len() == values.len(),
        values.len() <= usize::MAX,
        forall|k: int| 0 <= k < visible.len() ==> #[trigger] visible[k],
    ensures
        order.no_duplicates(),
        order.len() == values.len(),
{
    assert forall|i: int, j: int| 0 <= i < order.len() && 0 <= j < order.len() && i != j implies order[i]
        != order[j] by {
        if i < j {
            assert(ranks_before(values, order[i] as int, order[j] as int));
        } else {
            assert(ranks_before(values, order[j] as int, order[i] as int));
        }
    }
    let indices = Set::new(|k: usize| 0 <= k < values.len());
    assert(order.to_set() =~= indices) by {
        assert forall|k: usize| order.to_set().contains(k) <==> indices.contains(k) by {
            if order.contains(k) {
                let i = choose|i: int| 0 <= i < order.len() && order[i] == k;
                assert(order[i] < values.len());
            }
            if indices.contains(k) {
                assert(visible[k as int]);
            }
        }
    }
    order.unique_seq_to_set();
    lemma_index_set_len(values.len());
}

/// There are `n` indices below `n`.
proof fn lemma_index_set_len(n: nat)
    ensures
        Set::new(|k: usize| 0 <= k < n).finite(),
        n <= usize::MAX + 1 ==> Set::new(|k: usize| 0 <= k < n).len() == n,
    decreases n,
{
    let s = Set::new(|k: usize| 0 <= k < n);
    if n == 0 {
        assert(s =~= Set::<usize>::empty());
    } else {
        let m = (n - 1) as nat;
        lemma_index_set_len(m);
        let t = Set::new(|k: usize| 0 <= k < m);
        if n <= usize::MAX + 1 {
            assert(s =~= t.insert(m as usize));
        } else {
            assert(s =~= t);
        }
    }
}

} // verus!
