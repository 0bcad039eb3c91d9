use vstd::prelude::*;

verus! {

/// The closed set of reasons a `register` or `draw` call can be refused.
/// Every failure leaves the engine's state exactly as it was.
#[derive(Clone, Copy, PartialEq, Eq, Structural, Debug)]
pub enum Error {
    /// The raffle has already chosen its full quota of winners.
    Completed,
    /// The attached stake lies outside the accepted entry bounds.
    InvalidEntryAmount,
    /// The caller already holds an entry in the participant pool.
    AlreadyGotEntry,
    /// The countdown is armed but the minimum wait has not yet elapsed.
    CountDownNotStartedYet,
    /// The roster holds fewer participants than the quorum requires.
    LessUsers,
}

} // verus!
