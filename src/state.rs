use vstd::prelude::*;

use cosmwasm_std::Addr;

verus! {

/// The host's validated account address, carried through unchanged.
#[verifier::external_type_specification]
#[verifier::external_body]
pub struct ExAddr(Addr);

/// Contract-level metadata, written once at initialisation.
pub struct Config {
    /// Validated at initialisation; no operation checks callers against it yet.
    pub admin_address: Addr,
}

/// One vote's side.
#[derive(Clone, Copy, Debug, PartialEq, Eq, Structural)]
pub enum VoteChoice {
    Yes,
    No,
}

/// A question with its two-sided tally.
#[derive(Clone, Debug, PartialEq)]
pub struct Poll {
    pub question: String,
    pub yes_votes: u64,
    pub no_votes: u64,
}

/// The mathematical content of a poll.
pub struct PollView {
    pub question: Seq<char>,
    pub yes_votes: nat,
    pub no_votes: nat,
}

impl View for Poll {
    type V = PollView;

    open spec fn view(&self) -> PollView {
        PollView {
            question: self.question@,
            yes_votes: self.yes_votes as nat,
            no_votes: self.no_votes as nat,
        }
    }
}

impl PollView {
    /// A freshly opened poll: the question, no votes on either side.
    pub open spec fn fresh(question: Seq<char>) -> PollView {
        PollView { question, yes_votes: 0, no_votes: 0 }
    }

    /// The poll after one more vote for `choice`; the question and the other side stay.
    pub open spec fn with_vote(self, choice: VoteChoice) -> PollView {
        match choice {
            VoteChoice::Yes => PollView { yes_votes: self.yes_votes + 1, ..self },
            VoteChoice::No => PollView { no_votes: self.no_votes + 1, ..self },
        }
    }

    /// The number of votes cast so far for `choice`.
    pub open spec fn votes_for(self, choice: VoteChoice) -> nat {
        match choice {
            VoteChoice::Yes => self.yes_votes,
            VoteChoice::No => self.no_votes,
        }
    }
}

impl Poll {
    /// Opens a poll on `question` with both counters at zero.
    pub fn new(question: String) -> (r: Poll)
        ensures
            r@ == PollView::fresh(question@),
    {
        Poll { question, yes_votes: 0, no_votes: 0 }
    }
}

} // verus!
