use vstd::prelude::*;

verus! {

/// The failures that the engine reports to its caller.
#[derive(Clone, Copy, Debug, PartialEq, Eq, Structural)]
pub enum ContractError {
    /// The admin address handed to initialisation is not a well-formed identity.
    InvalidAddress,
    /// No poll has been created under the requested id.
    PollNotFound,
}

} // verus!
