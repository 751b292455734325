use cosmwasm_std::Addr;
use poll_contract::contract::{
    apply_vote, create_poll, execute, get_tally, instantiate, next_poll_id, query, tally_of, vote,
    Store, COUNTER_MAX,
};
use poll_contract::error::ContractError;
use poll_contract::msg::{ExecuteMsg, QueryMsg, TallyResponse};
use poll_contract::state::{Poll, VoteChoice};

fn fresh_store() -> Store {
    instantiate(Some(Addr::unchecked("cosmos1abc"))).unwrap()
}

fn tally(yes_votes: u64, no_votes: u64) -> TallyResponse {
    TallyResponse { yes_votes, no_votes }
}

#[test]
fn instantiate_stores_admin_and_zero_counter() {
    let store = fresh_store();
    assert_eq!(store.config().admin_address, Addr::unchecked("cosmos1abc"));
    assert_eq!(store.id_counter(), 0);
    assert!(store.poll(0).is_none());
}

#[test]
fn instantiate_rejects_invalid_address() {
    assert!(matches!(instantiate(None), Err(ContractError::InvalidAddress)));
}

#[test]
fn ids_are_sequential() {
    let mut store = fresh_store();
    for expected in 0u64..5 {
        let id = create_poll(&mut store, format!("question {}", expected));
        assert_eq!(id, expected);
        assert_eq!(store.id_counter(), expected + 1);
    }
    for id in 0u64..5 {
        assert_eq!(store.poll(id).unwrap().question, format!("question {}", id));
    }
}

#[test]
fn new_poll_has_zero_tally() {
    let mut store = fresh_store();
    let id = create_poll(&mut store, "Q".to_string());
    assert_eq!(get_tally(&store, id), Ok(tally(0, 0)));
}

#[test]
fn yes_then_no_gives_one_each() {
    let mut store = fresh_store();
    let id = create_poll(&mut store, "Q".to_string());
    assert_eq!(vote(&mut store, id, VoteChoice::Yes), Ok(()));
    assert_eq!(vote(&mut store, id, VoteChoice::No), Ok(()));
    assert_eq!(get_tally(&store, id), Ok(tally(1, 1)));
}

#[test]
fn vote_order_does_not_matter() {
    let mut a = fresh_store();
    let mut b = fresh_store();
    let ia = create_poll(&mut a, "Q".to_string());
    let ib = create_poll(&mut b, "Q".to_string());
    for c in [VoteChoice::Yes, VoteChoice::No, VoteChoice::Yes] {
        vote(&mut a, ia, c).unwrap();
    }
    for c in [VoteChoice::No, VoteChoice::Yes, VoteChoice::Yes] {
        vote(&mut b, ib, c).unwrap();
    }
    assert_eq!(get_tally(&a, ia), Ok(tally(2, 1)));
    assert_eq!(get_tally(&a, ia), get_tally(&b, ib));
}

#[test]
fn unknown_id_is_not_found() {
    let mut store = fresh_store();
    assert_eq!(get_tally(&store, 0), Err(ContractError::PollNotFound));
    assert_eq!(vote(&mut store, 0, VoteChoice::Yes), Err(ContractError::PollNotFound));
    let id = create_poll(&mut store, "Q".to_string());
    assert_eq!(get_tally(&store, id + 1), Err(ContractError::PollNotFound));
    assert_eq!(vote(&mut store, id + 1, VoteChoice::No), Err(ContractError::PollNotFound));
    assert_eq!(get_tally(&store, u64::MAX), Err(ContractError::PollNotFound));
    assert_eq!(get_tally(&store, id), Ok(tally(0, 0)));
}

#[test]
fn question_is_kept_verbatim() {
    let mut store = fresh_store();
    let question = "  Cats or dogs?\n ¿sí o no? ".to_string();
    let id = create_poll(&mut store, question.clone());
    vote(&mut store, id, VoteChoice::Yes).unwrap();
    vote(&mut store, id, VoteChoice::No).unwrap();
    assert_eq!(store.poll(id).unwrap().question, question);
}

#[test]
fn empty_question_is_accepted() {
    let mut store = fresh_store();
    let id = create_poll(&mut store, String::new());
    assert_eq!(id, 0);
    assert_eq!(store.poll(id).unwrap().question, "");
}

#[test]
fn repeated_tally_reads_agree() {
    let mut store = fresh_store();
    let id = create_poll(&mut store, "Q".to_string());
    vote(&mut store, id, VoteChoice::No).unwrap();
    let first = get_tally(&store, id);
    for _ in 0..10 {
        assert_eq!(get_tally(&store, id), first);
    }
    assert_eq!(first, Ok(tally(0, 1)));
}

#[test]
fn cats_or_dogs_scenario() {
    let mut store = instantiate(Some(Addr::unchecked("cosmos1abc..."))).unwrap();
    let id = execute(&mut store, ExecuteMsg::CreatePoll { question: "Cats or dogs?".to_string() });
    assert_eq!(id, Ok(0));
    let yes = ExecuteMsg::Vote { poll_id: 0, vote_type: VoteChoice::Yes };
    assert_eq!(execute(&mut store, yes.clone()), Ok(0));
    assert_eq!(execute(&mut store, yes), Ok(0));
    assert_eq!(query(&store, QueryMsg::GetTally { poll_id: 0 }), Ok(tally(2, 0)));
    let missing = ExecuteMsg::Vote { poll_id: 1, vote_type: VoteChoice::No };
    assert_eq!(execute(&mut store, missing), Err(ContractError::PollNotFound));
}

#[test]
fn votes_on_one_poll_leave_another_alone() {
    let mut store = fresh_store();
    assert_eq!(create_poll(&mut store, "first".to_string()), 0);
    assert_eq!(create_poll(&mut store, "second".to_string()), 1);
    vote(&mut store, 0, VoteChoice::No).unwrap();
    for c in [VoteChoice::Yes, VoteChoice::Yes, VoteChoice::No] {
        vote(&mut store, 1, c).unwrap();
    }
    assert_eq!(get_tally(&store, 0), Ok(tally(0, 1)));
    assert_eq!(get_tally(&store, 1), Ok(tally(2, 1)));
    assert_eq!(store.poll(0).unwrap().question, "first");
}

#[test]
fn apply_vote_counts_one_side() {
    let p = Poll::new("Q".to_string());
    let p = apply_vote(Some(p), VoteChoice::Yes).unwrap();
    assert_eq!(p, Poll { question: "Q".to_string(), yes_votes: 1, no_votes: 0 });
    let p = apply_vote(Some(p), VoteChoice::No).unwrap();
    assert_eq!(p, Poll { question: "Q".to_string(), yes_votes: 1, no_votes: 1 });
    assert_eq!(apply_vote(None, VoteChoice::No), Err(ContractError::PollNotFound));
}

#[test]
fn tally_of_reads_both_counters() {
    let p = Poll { question: "Q".to_string(), yes_votes: 7, no_votes: 3 };
    assert_eq!(tally_of(Some(&p)), Ok(tally(7, 3)));
    assert_eq!(tally_of(None), Err(ContractError::PollNotFound));
}

#[test]
fn next_poll_id_stops_at_the_largest_counter() {
    assert_eq!(next_poll_id(0), Some(1));
    assert_eq!(next_poll_id(41), Some(42));
    assert_eq!(next_poll_id(COUNTER_MAX - 1), Some(COUNTER_MAX));
    assert_eq!(next_poll_id(COUNTER_MAX), None);
    assert_eq!(COUNTER_MAX, u64::MAX);
}

#[test]
fn vote_near_the_largest_counter() {
    let p = Poll { question: "Q".to_string(), yes_votes: u64::MAX - 1, no_votes: 0 };
    let p = apply_vote(Some(p), VoteChoice::Yes).unwrap();
    assert_eq!(p.yes_votes, u64::MAX);
    assert_eq!(p.no_votes, 0);
}
