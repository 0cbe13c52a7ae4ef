use crate::driver::{DriverView, Phase, StopReason};
use crate::sampler::{greedy_choice, lemma_greedy_choice_is_greedy};
use vstd::prelude::*;

verus! {

/// One turn of the loop as the driver sees it: the token that was chosen,
/// and whether the output was found closed when its text was pushed.
pub struct Round {
    pub id: u32,
    pub sink_closed: bool,
}

/// One turn of the loop with greedy sampling: the scores the model gave,
/// and whether the output was found closed.
pub struct GreedyRound {
    pub scores: Seq<i64>,
    pub sink_closed: bool,
}

/// The driver after one turn: the token is taken, then the stop conditions
/// are checked.
pub open spec fn after_round(s: DriverView, r: Round) -> DriverView {
    s.accepted(r.id).checked(r.sink_closed)
}

/// The driver after the turns `rounds`, in order.
pub open spec fn after_rounds(s: DriverView, rounds: Seq<Round>) -> DriverView
    decreases rounds.len(),
{
    if rounds.len() == 0 {
        s
    } else {
        after_round(after_rounds(s, rounds.drop_last()), rounds.last())
    }
}

/// The driver after the greedy turns `rounds`, in order.
pub open spec fn after_greedy_rounds(s: DriverView, rounds: Seq<GreedyRound>) -> DriverView
    decreases rounds.len(),
{
    if rounds.len() == 0 {
        s
    } else {
        after_greedy_rounds(s, rounds.drop_last()).stepped(rounds.last().scores).checked(
            rounds.last().sink_closed,
        )
    }
}

/// A request that has been started on the encoded prompt `prompt`.
pub open spec fn started(max_new_tokens: nat, stop_ids: Seq<u32>, prompt: Seq<u32>) -> DriverView {
    DriverView::init(max_new_tokens, stop_ids).prepared().begun(Some(prompt))
}

/// Neither a closed output nor an end-of-sequence id occurs in `rounds`.
pub open spec fn undisturbed(rounds: Seq<Round>, stop_ids: Seq<u32>) -> bool {
    forall|i: int|
        0 <= i < rounds.len() ==> !(#[trigger] rounds[i]).sink_closed && !stop_ids.contains(
            rounds[i].id,
        )
}

/// Outside `Stepping` a turn changes nothing.
pub proof fn lemma_round_outside_stepping(s: DriverView, r: Round)
    requires
        s.phase != Phase::Stepping,
    ensures
        after_round(s, r) == s,
{
}

/// A turn keeps a driver well formed and leaves the prompt, the limit and
/// the stop ids alone. The context it leaves for the next forward pass is
/// the one before it, or that with exactly the chosen token behind it.
pub proof fn lemma_round_keeps_wf(s: DriverView, r: Round)
    requires
        s.wf(),
    ensures
        after_round(s, r).wf(),
        after_round(s, r).tokens == s.tokens || after_round(s, r).tokens == s.tokens.push(r.id),
        after_round(s, r).tokens == s.tokens.push(r.id) <==> s.ready(),
        s.tokens.is_prefix_of(after_round(s, r).tokens),
        after_round(s, r).prompt_len == s.prompt_len,
        after_round(s, r).max_new_tokens == s.max_new_tokens,
        after_round(s, r).stop_ids == s.stop_ids,
{
}

/// However many turns are played, and whatever they bring, the number of
/// steps performed never exceeds the limit; the token sequence only grows,
/// by at most one token a turn.
pub proof fn lemma_steps_bounded(s: DriverView, rounds: Seq<Round>)
    requires
        s.wf(),
    ensures
        after_rounds(s, rounds).wf(),
        after_rounds(s, rounds).generated() <= s.max_new_tokens,
        after_rounds(s, rounds).tokens.len() <= s.tokens.len() + rounds.len(),
        s.tokens.is_prefix_of(after_rounds(s, rounds).tokens),
        after_rounds(s, rounds).prompt_len == s.prompt_len,
        after_rounds(s, rounds).max_new_tokens == s.max_new_tokens,
        after_rounds(s, rounds).stop_ids == s.stop_ids,
    decreases rounds.len(),
{
    if rounds.len() > 0 {
        lemma_steps_bounded(s, rounds.drop_last());
        lemma_round_keeps_wf(after_rounds(s, rounds.drop_last()), rounds.last());
    }
}

/// A request that ended because the limit was reached has performed exactly
/// as many steps as the limit allows; one that ended on an end-of-sequence
/// id has that id as its last token. Any shortfall is thus due to an
/// end-of-sequence id, a closed output or an error.
pub proof fn lemma_stop_reason_is_true(s: DriverView, rounds: Seq<Round>)
    requires
        s.wf(),
    ensures
        ({
            let end = after_rounds(s, rounds);
            &&& end.phase == Phase::Finishing ==> end.stop is Some
            &&& end.stop == Some(StopReason::LimitReached) ==> end.generated()
                == s.max_new_tokens
            &&& end.stop == Some(StopReason::EndOfSequence) ==> end.generated() >= 1
                && s.stop_ids.contains(end.tokens.last())
        }),
{
    lemma_steps_bounded(s, rounds);
}

/// Where no end-of-sequence id is chosen and the output stays open, a
/// started request performs exactly as many steps as turns are played, up to
/// the limit, and is finishing exactly when the limit is reached. With a
/// limit of zero it is finishing before any turn.
pub proof fn lemma_steps_reach_limit(
    max_new_tokens: nat,
    stop_ids: Seq<u32>,
    prompt: Seq<u32>,
    rounds: Seq<Round>,
)
    requires
        undisturbed(rounds, stop_ids),
    ensures
        ({
            let end = after_rounds(started(max_new_tokens, stop_ids, prompt), rounds);
            &&& end.wf()
            &&& !end.awaiting_sink
            &&& end.prompt_len == prompt.len()
            &&& end.max_new_tokens == max_new_tokens
            &&& end.stop_ids == stop_ids
            &&& end.generated() == if rounds.len() <= max_new_tokens {
                rounds.len()
            } else {
                max_new_tokens
            }
            &&& end.phase == if rounds.len() >= max_new_tokens {
                Phase::Finishing
            } else {
                Phase::Stepping
            }
            &&& end.stop == if rounds.len() >= max_new_tokens {
                Some(StopReason::LimitReached)
            } else {
                None
            }
        }),
    decreases rounds.len(),
{
    if rounds.len() > 0 {
        let front = rounds.drop_last();
        assert forall|i: int| 0 <= i < front.len() implies !(#[trigger] front[i]).sink_closed
            && !stop_ids.contains(front[i].id) by {
            assert(front[i] == rounds[i]);
        }
        lemma_steps_reach_limit(max_new_tokens, stop_ids, prompt, front);
        let before = after_rounds(started(max_new_tokens, stop_ids, prompt), front);
        let r = rounds.last();
        assert(r == rounds[rounds.len() - 1]);
        if before.ready() {
            assert(before.accepted(r.id).tokens.last() == r.id);
        }
    }
}

/// Once the output is found closed in turn `k`, the request has left
/// `Stepping` for good: later turns change nothing, and no more than `k + 1`
/// tokens were appended in all.
pub proof fn lemma_closed_sink_stops(s: DriverView, rounds: Seq<Round>, k: int)
    requires
        s.wf(),
        0 <= k < rounds.len(),
        rounds[k].sink_closed,
    ensures
        after_rounds(s, rounds).phase != Phase::Stepping,
        after_rounds(s, rounds) == after_rounds(s, rounds.take(k + 1)),
        after_rounds(s, rounds).tokens.len() <= s.tokens.len() + k + 1,
    decreases rounds.len(),
{
    let front = rounds.drop_last();
    if k == rounds.len() - 1 {
        assert(rounds.take(k + 1) =~= rounds);
        lemma_steps_bounded(s, front);
    } else {
        lemma_closed_sink_stops(s, front, k);
        assert(front.take(k + 1) =~= rounds.take(k + 1));
        lemma_round_outside_stepping(after_rounds(s, front), rounds.last());
    }
}

/// With greedy sampling the token sequence is a function of the start, the
/// scores and the closing of the output alone: two runs that agree on these
/// agree on every token, whatever text the tokenizer gave on the way.
pub proof fn lemma_greedy_runs_agree(s: DriverView, a: Seq<GreedyRound>, b: Seq<GreedyRound>)
    requires
        a.len() == b.len(),
        forall|i: int|
            0 <= i < a.len() ==> (#[trigger] a[i]).sink_closed == b[i].sink_closed && a[i].scores
                =~= b[i].scores,
    ensures
        after_greedy_rounds(s, a) == after_greedy_rounds(s, b),
    decreases a.len(),
{
    if a.len() > 0 {
        assert forall|i: int| 0 <= i < a.len() - 1 implies (#[trigger] a.drop_last()[i]).sink_closed
            == b.drop_last()[i].sink_closed && a.drop_last()[i].scores =~= b.drop_last()[i].scores by {
            assert(a.drop_last()[i] == a[i]);
        }
        lemma_greedy_runs_agree(s, a.drop_last(), b.drop_last());
        assert(a.last() == a[a.len() - 1]);
        assert(a.last().scores == b.last().scores);
    }
}

/// With greedy sampling too, and whatever the model hands back, the number
/// of steps performed never exceeds the limit, and the prompt stays as it was.
pub proof fn lemma_greedy_steps_bounded(s: DriverView, rounds: Seq<GreedyRound>)
    requires
        s.wf(),
    ensures
        after_greedy_rounds(s, rounds).wf(),
        after_greedy_rounds(s, rounds).generated() <= s.max_new_tokens,
        after_greedy_rounds(s, rounds).tokens.len() <= s.tokens.len() + rounds.len(),
        s.tokens.is_prefix_of(after_greedy_rounds(s, rounds).tokens),
        after_greedy_rounds(s, rounds).prompt_len == s.prompt_len,
        after_greedy_rounds(s, rounds).max_new_tokens == s.max_new_tokens,
    decreases rounds.len(),
{
    if rounds.len() > 0 {
        lemma_greedy_steps_bounded(s, rounds.drop_last());
    }
}

/// Whatever sampler chose it, a token that is appended lies in the
/// vocabulary it was chosen from: an id past it leaves the tokens as they
/// were.
pub proof fn lemma_sampled_in_vocabulary(s: DriverView, id: u32, vocabulary_size: nat)
    ensures
        s.sampled(id, vocabulary_size).tokens == s.tokens || (s.sampled(
            id,
            vocabulary_size,
        ).tokens == s.tokens.push(id) && id < vocabulary_size),
        id >= vocabulary_size ==> s.sampled(id, vocabulary_size).tokens == s.tokens,
{
}

/// A greedy step never appends an id past the scores it was chosen from.
pub proof fn lemma_greedy_step_in_bounds(s: DriverView, scores: Seq<i64>)
    requires
        s.ready(),
        s.stepped(scores).phase == Phase::Stepping,
    ensures
        s.stepped(scores).tokens == s.tokens.push(greedy_choice(scores) as u32),
        0 <= greedy_choice(scores) < scores.len(),
{
    lemma_greedy_choice_is_greedy(scores);
}

} // verus!
