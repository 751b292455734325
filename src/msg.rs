use vstd::prelude::*;

use crate::state::VoteChoice;

verus! {

/// Payload of the one-time initialisation.
#[derive(Clone, Debug, PartialEq)]
pub struct InstantiateMsg {
    /// Contract admin, as raw text; it is validated before it is stored.
    pub admin_address: String,
}

/// The commands that change the store.
#[derive(Clone, Debug, PartialEq)]
pub enum ExecuteMsg {
    /// Open a new poll asking `question`.
    CreatePoll { question: String },
    /// Cast one vote on the poll `poll_id`.
    Vote { poll_id: u64, vote_type: VoteChoice },
}

/// The read-only queries.
#[derive(Clone, Debug, PartialEq)]
pub enum QueryMsg {
    /// The current tally of the poll `poll_id`.
    GetTally { poll_id: u64 },
}

/// The answer to `QueryMsg::GetTally`.
#[derive(Clone, Copy, Debug, PartialEq, Eq, Structural)]
pub struct TallyResponse {
    pub yes_votes: u64,
    pub no_votes: u64,
}

} // verus!
