//! Laws of the poll store, stated over the transitions that the engine's
//! functions are specified by.
use vstd::prelude::*;

use crate::contract::{tally_matches, StoreView, COUNTER_MAX};
use crate::msg::TallyResponse;
use crate::state::{PollView, VoteChoice};

verus! {

/// The store after one poll is created for each question of `questions`, in order.
pub open spec fn created_all(s: StoreView, questions: Seq<Seq<char>>) -> StoreView
    decreases questions.len(),
{
    if questions.len() == 0 {
        s
    } else {
        created_all(s, questions.drop_last()).created(questions.last())
    }
}

/// Ids are handed out densely: starting from a store without polls, the `k`-th
/// creation (counting from zero) receives id `k` and stores its question
/// under that id, so no id is skipped or repeated.
pub proof fn lemma_ids_are_dense(s: StoreView, questions: Seq<Seq<char>>)
    requires
        s.polls.len() == 0,
    ensures
        forall|k: int| 0 <= k <= questions.len() ==> #[trigger] created_all(s, questions.take(k)).next_id() == k,
        created_all(s, questions).polls.len() == questions.len(),
        forall|k: int| 0 <= k < questions.len() ==> #[trigger] created_all(s, questions).polls[k] == PollView::fresh(questions[k]),
    decreases questions.len(),
{
    if questions.len() > 0 {
        let init = questions.drop_last();
        lemma_ids_are_dense(s, init);
        assert(questions.take(questions.len() as int) =~= questions);
        assert forall|k: int| 0 <= k <= questions.len() implies #[trigger] created_all(s, questions.take(k)).next_id() == k by {
            if k < questions.len() {
                assert(questions.take(k) =~= init.take(k));
            }
        }
        assert forall|k: int| 0 <= k < questions.len() implies #[trigger] created_all(s, questions).polls[k] == PollView::fresh(questions[k]) by {
            if k < init.len() {
                assert(created_all(s, init).polls[k] == PollView::fresh(init[k]));
            }
        }
    } else {
        assert forall|k: int| 0 <= k <= questions.len() implies #[trigger] created_all(s, questions.take(k)).next_id() == k by {
            assert(questions.take(k) =~= questions);
        }
    }
}

/// An id that no creation returned names no poll: starting from a store
/// without polls, after any run of creations such an id is absent, so reading
/// its tally or voting on it fails with `PollNotFound`.
pub proof fn lemma_unreturned_id_is_absent(s: StoreView, questions: Seq<Seq<char>>, id: u64)
    requires
        s.polls.len() == 0,
        forall|k: int| 0 <= k < questions.len() ==> #[trigger] created_all(s, questions.take(k)).next_id() != id,
    ensures
        !created_all(s, questions).has_poll(id),
        created_all(s, questions).voted(id, VoteChoice::Yes) == created_all(s, questions),
        created_all(s, questions).voted(id, VoteChoice::No) == created_all(s, questions),
{
    lemma_ids_are_dense(s, questions);
    if id < questions.len() {
        assert(created_all(s, questions.take(id as int)).next_id() == id);
    }
}

/// A poll that was just created has no votes on either side.
pub proof fn lemma_new_poll_has_empty_tally(s: StoreView, question: Seq<char>)
    requires
        s.next_id() < COUNTER_MAX,
    ensures
        s.created(question).has_poll(s.next_id() as u64),
        s.created(question).polls[s.next_id() as int].yes_votes == 0,
        s.created(question).polls[s.next_id() as int].no_votes == 0,
{
}

/// A yes vote and then a no vote on a new poll leave one vote on each side.
pub proof fn lemma_yes_then_no(s: StoreView, question: Seq<char>)
    requires
        s.next_id() < COUNTER_MAX,
    ensures
        ({
            let id = s.next_id() as u64;
            let t = s.created(question).voted(id, VoteChoice::Yes).voted(id, VoteChoice::No);
            t.polls[id as int].yes_votes == 1 && t.polls[id as int].no_votes == 1
        }),
{
}

/// Votes commute: two votes, on the same poll or on different ones, leave the
/// same store in either order.
pub proof fn lemma_votes_commute(s: StoreView, id1: u64, c1: VoteChoice, id2: u64, c2: VoteChoice)
    ensures
        s.voted(id1, c1).voted(id2, c2) == s.voted(id2, c2).voted(id1, c1),
{
    let a = s.voted(id1, c1).voted(id2, c2);
    let b = s.voted(id2, c2).voted(id1, c1);
    assert(a.polls =~= b.polls);
}

/// A vote never changes a question, nor the number of polls.
pub proof fn lemma_vote_keeps_questions(s: StoreView, id: u64, choice: VoteChoice)
    ensures
        s.voted(id, choice).polls.len() == s.polls.len(),
        forall|i: int| 0 <= i < s.polls.len() ==> #[trigger] s.voted(id, choice).polls[i].question == s.polls[i].question,
{
}

/// A vote on one poll leaves every other poll as it was.
pub proof fn lemma_vote_isolation(s: StoreView, id: u64, choice: VoteChoice, other: u64)
    requires
        other != id,
        s.has_poll(other),
    ensures
        s.voted(id, choice).polls[other as int] == s.polls[other as int],
{
}

/// A tally is fixed by the poll it reports on: two reads of one poll agree.
pub proof fn lemma_tally_determined(t1: TallyResponse, t2: TallyResponse, poll: PollView)
    requires
        tally_matches(t1, poll),
        tally_matches(t2, poll),
    ensures
        t1 == t2,
{
}

} // verus!
