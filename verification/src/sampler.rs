use vstd::prelude::*;

verus! {

/// `i` is the greedy choice over `scores`: an index of the vector at which the
/// score is highest, and the first such index.
pub open spec fn is_greedy_choice(scores: Seq<i64>, i: int) -> bool {
    &&& 0 <= i < scores.len()
    &&& forall|j: int| 0 <= j < scores.len() ==> scores[j] <= scores[i]
    &&& forall|j: int| 0 <= j < i ==> scores[j] < scores[i]
}

/// The greedy choice over `scores`, computed from the front: a later score
/// replaces the choice only when it is strictly higher.
pub open spec fn greedy_choice(scores: Seq<i64>) -> int
    decreases scores.len(),
{
    if scores.len() <= 1 {
        0
    } else {
        let best = greedy_choice(scores.drop_last());
        if scores.last() > scores[best] {
            scores.len() - 1
        } else {
            best
        }
    }
}

/// On a non-empty vector, `greedy_choice` is a greedy choice.
pub proof fn lemma_greedy_choice_is_greedy(scores: Seq<i64>)
    requires
        scores.len() > 0,
    ensures
        is_greedy_choice(scores, greedy_choice(scores)),
    decreases scores.len(),
{
    if scores.len() > 1 {
        let front = scores.drop_last();
        lemma_greedy_choice_is_greedy(front);
        let best = greedy_choice(front);
        assert(forall|j: int| 0 <= j < front.len() ==> front[j] == scores[j]);
    }
}

/// A vector has at most one greedy choice.
pub proof fn lemma_greedy_choice_unique(scores: Seq<i64>, i: int, j: int)
    requires
        is_greedy_choice(scores, i),
        is_greedy_choice(scores, j),
    ensures
        i == j,
{
    if i < j {
        assert(scores[i] < scores[j]);
        assert(scores[j] <= scores[i]);
    } else if j < i {
        assert(scores[j] < scores[i]);
        assert(scores[i] <= scores[j]);
    }
}

/// The sampler never leaves the vocabulary: whatever the scores, the greedy
/// choice over a vector of size `V > 0` lies in `[0, V)`.
pub proof fn lemma_greedy_choice_in_bounds(scores: Seq<i64>)
    requires
        scores.len() > 0,
    ensures
        0 <= greedy_choice(scores) < scores.len(),
{
    lemma_greedy_choice_is_greedy(scores);
}

/// Greedy selection: the index of the highest score, the lowest such index
/// where several are equal. `None` exactly when there is nothing to choose from.
pub fn select(scores: &Vec<i64>) -> (choice: Option<usize>)
    ensures
        choice is None <==> scores@.len() == 0,
        choice matches Some(i) ==> i == greedy_choice(scores@) && is_greedy_choice(scores@, i as int),
{
    if scores.len() == 0 {
        return None;
    }
    let mut best: usize = 0;
    let mut i: usize = 1;
    while i < scores.len()
        invariant
            1 <= i <= scores@.len(),
            best as int == greedy_choice(scores@.take(i as int)),
        decreases scores@.len() - i,
    {
        proof {
            assert(scores@.take(i + 1).drop_last() =~= scores@.take(i as int));
            lemma_greedy_choice_is_greedy(scores@.take(i as int));
        }
        if scores[i] > scores[best] {
            best = i;
        }
        i += 1;
    }
    proof {
        assert(scores@.take(i as int) =~= scores@);
        lemma_greedy_choice_is_greedy(scores@);
    }
    Some(best)
}

/// Greedy selection as a token id. `None` when the vector is empty or the
/// chosen index is not a 32-bit token id.
pub fn select_token(scores: &Vec<i64>) -> (token: Option<u32>)
    ensures
        token is Some <==> (scores@.len() > 0 && greedy_choice(scores@) <= u32::MAX),
        token matches Some(id) ==> id == greedy_choice(scores@) && id < scores@.len(),
{
    match select(scores) {
        Some(i) => {
            if i <= 0xffff_ffff {
                Some(i as u32)
            } else {
                None
            }
        },
        None => None,
    }
}

} // verus!
