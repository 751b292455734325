use vstd::prelude::*;

use cosmwasm_std::Addr;

use crate::error::ContractError;
use crate::msg::{ExecuteMsg, QueryMsg, TallyResponse};
use crate::state::{Config, Poll, PollView, VoteChoice};

verus! {

/// The largest value the poll-id counter and each vote counter can hold.
pub const COUNTER_MAX: u64 = 0xffff_ffff_ffff_ffff;

/// The persisted state of the contract: the config singleton, the id counter
/// singleton, and the polls keyed by id.
///
/// Poll ids are dense: the poll with id `i` sits at index `i`, and the counter
/// always equals the number of polls ever created.
pub struct Store {
    config: Config,
    id_counter: u64,
    polls: Vec<Poll>,
}

/// What a store holds, as mathematical values.
pub struct StoreView {
    pub admin_address: Addr,
    /// The poll with id `i` is `polls[i]`; the next id handed out is `polls.len()`.
    pub polls: Seq<PollView>,
}

impl View for Store {
    type V = StoreView;

    closed spec fn view(&self) -> StoreView {
        StoreView {
            admin_address: self.config.admin_address,
            polls: self.polls@.map_values(|p: Poll| p@),
        }
    }
}

impl Store {
    /// The counter agrees with the polls held.
    pub closed spec fn wf(&self) -> bool {
        self.polls@.len() == self.id_counter
    }
}

impl StoreView {
    /// The id that the next created poll receives.
    pub open spec fn next_id(self) -> nat {
        self.polls.len()
    }

    /// Whether a poll has been created under `id`.
    pub open spec fn has_poll(self, id: u64) -> bool {
        id < self.polls.len()
    }

    /// The store after a poll on `question` is created.
    pub open spec fn created(self, question: Seq<char>) -> StoreView {
        StoreView { polls: self.polls.push(PollView::fresh(question)), ..self }
    }

    /// The store after one vote for `choice` on the poll `id`; unchanged when
    /// there is no such poll.
    pub open spec fn voted(self, id: u64, choice: VoteChoice) -> StoreView {
        if self.has_poll(id) {
            StoreView { polls: self.polls.update(id as int, self.polls[id as int].with_vote(choice)), ..self }
        } else {
            self
        }
    }

    /// Whether one more vote for `choice` on the poll `id` fits in its counter.
    pub open spec fn vote_fits(self, id: u64, choice: VoteChoice) -> bool {
        self.has_poll(id) ==> self.polls[id as int].votes_for(choice) < COUNTER_MAX
    }
}

/// The tally of `poll` as a response.
pub open spec fn tally_matches(r: TallyResponse, poll: PollView) -> bool {
    r.yes_votes == poll.yes_votes && r.no_votes == poll.no_votes
}

/// The counter value after `current_id` has been handed out, or `None` when the
/// counter is exhausted (creating a poll must then abort).
pub fn next_poll_id(current_id: u64) -> (r: Option<u64>)
    ensures
        r == (if current_id < COUNTER_MAX { Some((current_id + 1) as u64) } else { None::<u64> }),
{
    current_id.checked_add(1)
}

/// Applies one vote to the poll stored under the voted id, if there is one.
///
/// This is the read-modify-write of a vote: `poll` is what the store holds
/// under the id, the result what it must hold afterwards.
pub fn apply_vote(poll: Option<Poll>, vote_type: VoteChoice) -> (r: Result<Poll, ContractError>)
    requires
        poll matches Some(p) ==> p@.votes_for(vote_type) < COUNTER_MAX,
    ensures
        match poll {
            Some(p) => r matches Ok(q) && q@ == p@.with_vote(vote_type),
            None => r == Err::<Poll, ContractError>(ContractError::PollNotFound),
        },
{
    match poll {
        Some(p) => match vote_type {
            VoteChoice::Yes => Ok(Poll { yes_votes: p.yes_votes + 1, ..p }),
            VoteChoice::No => Ok(Poll { no_votes: p.no_votes + 1, ..p }),
        },
        None => Err(ContractError::PollNotFound),
    }
}

/// The tally of the poll stored under the queried id, if there is one.
pub fn tally_of(poll: Option<&Poll>) -> (r: Result<TallyResponse, ContractError>)
    ensures
        match poll {
            Some(p) => r matches Ok(t) && tally_matches(t, p@),
            None => r == Err::<TallyResponse, ContractError>(ContractError::PollNotFound),
        },
{
    match poll {
        Some(p) => Ok(TallyResponse { yes_votes: p.yes_votes, no_votes: p.no_votes }),
        None => Err(ContractError::PollNotFound),
    }
}


/// Sets up a fresh store: `validated_admin` is what the host's address
/// validation made of the raw admin address, `None` when it was rejected.
/// The id counter starts at zero and no poll exists.
pub fn instantiate(validated_admin: Option<Addr>) -> (r: Result<Store, ContractError>)
    ensures
        match validated_admin {
            Some(a) => r matches Ok(s) && s.wf() && s@.admin_address == a && s@.polls.len() == 0,
            None => r matches Err(e) && e == ContractError::InvalidAddress,
        },
{
    match validated_admin {
        Some(admin_address) => {
            let store = Store { config: Config { admin_address }, id_counter: 0, polls: Vec::new() };
            assert(store@.polls =~= Seq::<PollView>::empty());
            Ok(store)
        },
        None => Err(ContractError::InvalidAddress),
    }
}

/// Creates a poll on `question` and returns its id, which is the number of
/// polls created before it.
pub fn create_poll(store: &mut Store, question: String) -> (id: u64)
    requires
        old(store).wf(),
        old(store)@.next_id() < COUNTER_MAX,
    ensures
        final(store).wf(),
        id == old(store)@.next_id(),
        final(store)@ == old(store)@.created(question@),
{
    let current_id = store.id_counter;
    let next = next_poll_id(current_id);
    let ghost before = store.polls@;
    store.polls.push(Poll::new(question));
    match next {
        Some(n) => store.id_counter = n,
        None => {},
    }
    assert(store.polls@.map_values(|p: Poll| p@) =~= before.map_values(|p: Poll| p@).push(PollView::fresh(question@)));
    current_id
}

/// Casts one vote for `vote_type` on the poll `poll_id`.
///
/// Fails with `PollNotFound`, changing nothing, when no poll has that id;
/// otherwise exactly the chosen counter of that poll grows by one.
pub fn vote(store: &mut Store, poll_id: u64, vote_type: VoteChoice) -> (r: Result<(), ContractError>)
    requires
        old(store).wf(),
        old(store)@.vote_fits(poll_id, vote_type),
    ensures
        final(store).wf(),
        final(store)@ == old(store)@.voted(poll_id, vote_type),
        r is Ok <==> old(store)@.has_poll(poll_id),
        r matches Err(e) ==> e == ContractError::PollNotFound,
{
    let ghost before = store.polls@;
    let len = store.polls.len();
    if (poll_id as usize) < len && poll_id < len as u64 {
        let idx = poll_id as usize;
        let mut slot = Poll::new(String::new());
        store.polls.set_and_swap(idx, &mut slot);
        assert(slot == before[idx as int]);
        let updated = apply_vote(Some(slot), vote_type);
        match updated {
            Ok(p) => {
                store.polls.set(idx, p);
                assert(store.polls@.map_values(|p: Poll| p@) =~= before.map_values(|p: Poll| p@).update(
                    idx as int,
                    before[idx as int]@.with_vote(vote_type),
                ));
                Ok(())
            },
            Err(e) => Err(e),
        }
    } else {
        match apply_vote(None, vote_type) {
            Ok(_) => Ok(()),
            Err(e) => Err(e),
        }
    }
}

/// The current tally of the poll `poll_id`, or `PollNotFound` when no poll has
/// that id. Reading changes nothing, so repeated reads agree.
pub fn get_tally(store: &Store, poll_id: u64) -> (r: Result<TallyResponse, ContractError>)
    requires
        store.wf(),
    ensures
        r is Ok <==> store@.has_poll(poll_id),
        r matches Ok(t) ==> tally_matches(t, store@.polls[poll_id as int]),
        r matches Err(e) ==> e == ContractError::PollNotFound,
{
    if (poll_id as usize) < store.polls.len() && poll_id < store.polls.len() as u64 {
        tally_of(Some(&store.polls[poll_id as usize]))
    } else {
        tally_of(None)
    }
}


/// Runs one command against the store and returns the id of the poll it
/// created or voted on. Errors pass through unchanged.
pub fn execute(store: &mut Store, msg: ExecuteMsg) -> (r: Result<u64, ContractError>)
    requires
        old(store).wf(),
        match msg {
            ExecuteMsg::CreatePoll { .. } => old(store)@.next_id() < COUNTER_MAX,
            ExecuteMsg::Vote { poll_id, vote_type } => old(store)@.vote_fits(poll_id, vote_type),
        },
    ensures
        final(store).wf(),
        match msg {
            ExecuteMsg::CreatePoll { question } => {
                &&& r matches Ok(id) && id == old(store)@.next_id()
                &&& final(store)@ == old(store)@.created(question@)
            },
            ExecuteMsg::Vote { poll_id, vote_type } => {
                &&& final(store)@ == old(store)@.voted(poll_id, vote_type)
                &&& r is Ok <==> old(store)@.has_poll(poll_id)
                &&& r matches Ok(id) ==> id == poll_id
                &&& r matches Err(e) ==> e == ContractError::PollNotFound
            },
        },
{
    match msg {
        ExecuteMsg::CreatePoll { question } => Ok(create_poll(store, question)),
        ExecuteMsg::Vote { poll_id, vote_type } => match vote(store, poll_id, vote_type) {
            Ok(()) => Ok(poll_id),
            Err(e) => Err(e),
        },
    }
}

/// Answers one query; reading changes nothing.
pub fn query(store: &Store, msg: QueryMsg) -> (r: Result<TallyResponse, ContractError>)
    requires
        store.wf(),
    ensures
        match msg {
            QueryMsg::GetTally { poll_id } => {
                &&& r is Ok <==> store@.has_poll(poll_id)
                &&& r matches Ok(t) ==> tally_matches(t, store@.polls[poll_id as int])
                &&& r matches Err(e) ==> e == ContractError::PollNotFound
            },
        },
{
    match msg {
        QueryMsg::GetTally { poll_id } => get_tally(store, poll_id),
    }
}

impl Store {
    /// The config written at initialisation.
    pub fn config(&self) -> (r: &Config)
        ensures
            r.admin_address == self@.admin_address,
    {
        &self.config
    }

    /// The id counter: the number of polls created so far.
    pub fn id_counter(&self) -> (r: u64)
        requires
            self.wf(),
        ensures
            r == self@.next_id(),
    {
        self.id_counter
    }

    /// The poll stored under `poll_id`, if one was created with that id.
    pub fn poll(&self, poll_id: u64) -> (r: Option<&Poll>)
        ensures
            r is Some <==> self@.has_poll(poll_id),
            r matches Some(p) ==> p@ == self@.polls[poll_id as int],
    {
        if (poll_id as usize) < self.polls.len() && poll_id < self.polls.len() as u64 {
            Some(&self.polls[poll_id as usize])
        } else {
            None
        }
    }
}

} // verus!
