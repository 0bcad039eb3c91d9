use vstd::prelude::*;
use crate::account::User;

verus! {

/// Notification that a user's entry was accepted into the pool.
#[derive(Clone, Copy, PartialEq, Eq, Structural, Debug)]
pub struct Entry {
    pub user: User,
}

/// Notification that a winner was chosen and removed from the roster.
#[derive(Clone, Copy, PartialEq, Eq, Structural, Debug)]
pub struct WinnerChoosen {
    pub user: User,
}

/// Notification that the one-shot countdown was armed, carrying the
/// registration that armed it and the time it was armed at.
#[derive(Clone, Copy, PartialEq, Eq, Structural, Debug)]
pub struct CountDownStarted {
    pub user: User,
    pub timestamp: u64,
}

} // verus!
