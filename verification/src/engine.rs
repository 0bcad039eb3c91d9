use vstd::prelude::*;

use crate::account::User;
use crate::errors::Error;
use crate::events::CountDownStarted;
use crate::events::Entry;
use crate::events::WinnerChoosen;

verus! {

/// Smallest stake accepted with an entry, in source token units.
pub const MINIMUM_TOKEN: u128 = 10_000_000_000_000;
/// Largest stake accepted with an entry, in source token units.
pub const MAXIMUM_TOKEN: u128 = 100_000_000_000_000;
/// Number of winners drawn before the raffle is complete.
pub const WINNERS_COUNT: usize = 2;
/// Quorum: roster size that arms the countdown and permits a draw.
pub const PLAYER_REQUIRED_TO_START: usize = 5;
/// Minimum wait, in milliseconds, between arming the countdown and a draw.
pub const COUNTDOWN_MINIMUM: u64 = 900_000;

/// Sum of the stakes recorded in the pool, as an unbounded integer.
pub open spec fn sum_stakes(s: Seq<(User, u128)>) -> int
    decreases s.len(),
{
    if s.len() == 0 {
        0
    } else {
        sum_stakes(s.drop_last()) + s.last().1
    }
}

/// The two states hold exactly the same data (errors leave the engine
/// untouched).
pub open spec fn same_state(a: Charity, b: Charity) -> bool {
    &&& a.users@ == b.users@
    &&& a.users_vec@ == b.users_vec@
    &&& a.collector == b.collector
    &&& a.amount_collected == b.amount_collected
    &&& a.winners@ == b.winners@
    &&& a.countdown == b.countdown
}

/// Why a `get_entry` call on state `pre` is refused, or `None` when it is
/// owed success. The checks are made in this order: completion, stake
/// bounds, duplication.
pub open spec fn register_err(pre: Charity, caller: User, amount: u128) -> Option<Error> {
    if pre.spec_completed() {
        Option::Some(Error::Completed)
    } else if amount > MAXIMUM_TOKEN || amount < MINIMUM_TOKEN {
        Option::Some(Error::InvalidEntryAmount)
    } else if pre.spec_registered(caller) {
        Option::Some(Error::AlreadyGotEntry)
    } else {
        Option::None
    }
}

/// How a successful registration of `caller` with `amount` at time `now`
/// moves the state from `pre` to `post`: the entry is appended to the pool
/// and to the roster, the total grows by the stake, and the countdown is
/// armed exactly when it was unarmed and the roster reaches the quorum.
pub open spec fn register_ok_state(
    pre: Charity,
    post: Charity,
    caller: User,
    amount: u128,
    now: u64,
) -> bool {
    &&& post.users@ == pre.users@.push((caller, amount))
    &&& post.users_vec@ == pre.users_vec@.push(caller)
    &&& post.collector == pre.collector
    &&& post.amount_collected == pre.amount_collected + amount
    &&& post.winners@ == pre.winners@
    &&& post.countdown == (if pre.countdown is None && pre.users_vec@.len() + 1
        >= PLAYER_REQUIRED_TO_START {
        Option::Some(now)
    } else {
        pre.countdown
    })
}

/// Why a `draw` call on state `pre` at time `now` is refused, or `None`
/// when it is owed success. The checks are made in this order: countdown
/// gate, completion, quorum.
pub open spec fn draw_err(pre: Charity, now: u64) -> Option<Error> {
    if !pre.spec_gate_open(now) {
        Option::Some(Error::CountDownNotStartedYet)
    } else if pre.spec_completed() {
        Option::Some(Error::Completed)
    } else if pre.users_vec@.len() < PLAYER_REQUIRED_TO_START {
        Option::Some(Error::LessUsers)
    } else {
        Option::None
    }
}

/// Index of the winner a successful draw picks from `pre`'s roster, given
/// the host-supplied random value.
pub open spec fn winner_index(pre: Charity, random: u32) -> int {
    (random as int) % (pre.users_vec@.len() as int)
}

/// How a successful draw with random value `random` moves the state from
/// `pre` to `post`: the participant at the drawn index is appended to the
/// winners and swap-removed from the roster (the last roster entry takes
/// the freed slot, and the roster shrinks by one); the pool, the total and
/// the countdown stay as they were.
pub open spec fn draw_ok_state(pre: Charity, post: Charity, random: u32) -> bool {
    let idx = winner_index(pre, random);
    &&& post.users@ == pre.users@
    &&& post.users_vec@ == pre.users_vec@.update(idx, pre.users_vec@.last()).drop_last()
    &&& post.collector == pre.collector
    &&& post.amount_collected == pre.amount_collected
    &&& post.winners@ == pre.winners@.push(pre.users_vec@[idx])
    &&& post.countdown == pre.countdown
}

/// With every recorded stake at most `MAXIMUM_TOKEN`, the pool's total is
/// at most the pool's length times `MAXIMUM_TOKEN`.
pub proof fn lemma_sum_stakes_bound(s: Seq<(User, u128)>)
    requires
        forall|i: int| 0 <= i < s.len() ==> #[trigger] s[i].1 <= MAXIMUM_TOKEN,
    ensures
        sum_stakes(s) <= s.len() * MAXIMUM_TOKEN,
    decreases s.len(),
{
    if s.len() == 0 {
    } else {
        assert(forall|i: int|
            0 <= i < s.drop_last().len() ==> #[trigger] s.drop_last()[i].1 <= MAXIMUM_TOKEN);
        lemma_sum_stakes_bound(s.drop_last());
        assert((s.len() - 1) * MAXIMUM_TOKEN + MAXIMUM_TOKEN == s.len() * MAXIMUM_TOKEN)
            by (nonlinear_arith);
    }
}

/// A pool total never outgrows `u128`: the pool's length is bounded by the
/// machine word, and every stake by `MAXIMUM_TOKEN`.
proof fn lemma_total_fits(s: Seq<(User, u128)>)
    requires
        forall|i: int| 0 <= i < s.len() ==> #[trigger] s[i].1 <= MAXIMUM_TOKEN,
        s.len() <= usize::MAX,
    ensures
        sum_stakes(s) + MAXIMUM_TOKEN <= u128::MAX,
{
    lemma_sum_stakes_bound(s);
    assert(usize::MAX <= u64::MAX);
    assert(s.len() * MAXIMUM_TOKEN <= u64::MAX * MAXIMUM_TOKEN) by (nonlinear_arith)
        requires
            0 <= s.len() <= u64::MAX,
    ;
}

/// The raffle engine's entire state.
///
/// `users` is the participant pool: every user that ever registered, with
/// the stake they deposited. Entries are never removed, so a past winner
/// stays registered and cannot re-enter. `users_vec` is the roster: the
/// currently drawable participants, index-addressable so that a winner can
/// be picked by `random mod length` and removed by a constant-time
/// swap-removal.
pub struct Charity {
    /// Pool of every registered user with the stake each deposited.
    pub users: Vec<(User, u128)>,
    /// Roster of active (not yet winning) participants.
    pub users_vec: Vec<User>,
    /// Identity the collected stakes are earmarked for, fixed at creation.
    pub collector: User,
    /// Running total of every stake ever accepted; never decreases.
    pub amount_collected: u128,
    /// Winners drawn so far, in draw order; append-only.
    pub winners: Vec<User>,
    /// One-shot countdown: unarmed, or armed with the time it was armed at.
    pub countdown: Option<u64>,
}

impl Charity {
    /// The raffle is complete once the full quota of winners is drawn.
    pub open spec fn spec_completed(self) -> bool {
        self.winners@.len() == WINNERS_COUNT
    }

    /// `u` holds an entry in the pool (as an active participant or as a
    /// past winner).
    pub open spec fn spec_registered(self, u: User) -> bool {
        exists|i: int| 0 <= i < self.users@.len() && (#[trigger] self.users@[i]).0 == u
    }

    /// The countdown gate does not block a draw at time `now`: either it
    /// was never armed, or the minimum wait has elapsed since arming.
    pub open spec fn spec_gate_open(self, now: u64) -> bool {
        match self.countdown {
            Option::None => true,
            Option::Some(t) => now >= t + COUNTDOWN_MINIMUM,
        }
    }

    /// Well-formedness: the invariant every operation preserves.
    pub open spec fn wf(self) -> bool {
        // pool keys are unique: one entry per user, ever
        &&& forall|i: int, j: int|
            #![trigger self.users@[i], self.users@[j]]
            0 <= i < j < self.users@.len() ==> self.users@[i].0 != self.users@[j].0
        // every recorded stake lies within the entry bounds
        &&& forall|i: int|
            0 <= i < self.users@.len() ==> #[trigger] self.users@[i].1 >= MINIMUM_TOKEN
                && self.users@[i].1 <= MAXIMUM_TOKEN
        // the cached total is exactly the sum of the recorded stakes
        &&& self.amount_collected == sum_stakes(self.users@)
        // never more winners than the quota
        &&& self.winners@.len() <= WINNERS_COUNT
        // every roster member is a registered user
        &&& forall|i: int|
            0 <= i < self.users_vec@.len() ==> self.spec_registered(
                #[trigger] self.users_vec@[i],
            )
        // every winner is a registered user
        &&& forall|i: int|
            0 <= i < self.winners@.len() ==> self.spec_registered(#[trigger] self.winners@[i])
        // no user holds two roster slots
        &&& forall|i: int, j: int|
            #![trigger self.users_vec@[i], self.users_vec@[j]]
            0 <= i < j < self.users_vec@.len() ==> self.users_vec@[i] != self.users_vec@[j]
        // no user is drawn as a winner twice
        &&& forall|i: int, j: int|
            #![trigger self.winners@[i], self.winners@[j]]
            0 <= i < j < self.winners@.len() ==> self.winners@[i] != self.winners@[j]
        // a drawn winner has left the roster for good
        &&& forall|i: int, j: int|
            #![trigger self.users_vec@[i], self.winners@[j]]
            0 <= i < self.users_vec@.len() && 0 <= j < self.winners@.len()
                ==> self.users_vec@[i] != self.winners@[j]
        // each registered user is on the roster or among the winners
        &&& self.users@.len() == self.users_vec@.len() + self.winners@.len()
        // once the roster has reached quorum, the countdown is armed
        &&& self.users_vec@.len() >= PLAYER_REQUIRED_TO_START ==> self.countdown is Some
    }

    /// Create an empty raffle collecting on behalf of `collector`.
    pub fn new(collector: User) -> (c: Charity)
        ensures
            c.wf(),
            c.collector == collector,
            c.users@ == Seq::<(User, u128)>::empty(),
            c.users_vec@ == Seq::<User>::empty(),
            c.winners@ == Seq::<User>::empty(),
            c.amount_collected == 0,
            c.countdown is None,
    {
        let c = Charity {
            collector,
            users: Vec::new(),
            users_vec: Vec::new(),
            winners: Vec::new(),
            countdown: None,
            amount_collected: 0,
        };
        proof {
            assert(c.users@ =~= Seq::<(User, u128)>::empty());
            assert(c.users_vec@ =~= Seq::<User>::empty());
            assert(c.winners@ =~= Seq::<User>::empty());
        }
        c
    }

    /// The identity the collected stakes are earmarked for.
    pub fn get_collector_id(&self) -> (u: User)
        ensures
            u == self.collector,
    {
        self.collector
    }

    /// Current roster length.
    pub fn current_user_count(&self) -> (n: usize)
        ensures
            n == self.users_vec@.len(),
    {
        self.users_vec.len()
    }

    /// Running total of every stake ever accepted.
    pub fn get_amount_collected(&self) -> (a: u128)
        ensures
            a == self.amount_collected,
    {
        self.amount_collected
    }

    /// Number of winners drawn so far.
    pub fn winners_count(&self) -> (n: usize)
        ensures
            n == self.winners@.len(),
    {
        self.winners.len()
    }

    /// Whether the full quota of winners has been drawn.
    pub fn is_completed(&self) -> (b: bool)
        ensures
            b == self.spec_completed(),
    {
        self.winners_count() == WINNERS_COUNT
    }

    /// Whether `u` already holds an entry in the pool, by a scan of the
    /// pool's entries.
    fn contains_user(&self, u: User) -> (b: bool)
        ensures
            b == self.spec_registered(u),
    {
        let mut i: usize = 0;
        while i < self.users.len()
            invariant
                i <= self.users@.len(),
                forall|j: int| 0 <= j < i ==> (#[trigger] self.users@[j]).0 != u,
            decreases self.users@.len() - i,
        {
            if self.users[i].0 == u {
                return true;
            }
            i = i + 1;
        }
        false
    }

    /// Accept the caller's entry: record the stake, append the caller to
    /// the roster, grow the running total, and arm the countdown if this
    /// registration is the one that reaches the quorum. The returned pair
    /// carries the entry notification and, exactly when the countdown was
    /// armed by this call, the countdown notification. On any refusal the
    /// state is left untouched.
    pub fn get_entry(&mut self, caller: User, amount: u128, now: u64) -> (r: Result<
        (Entry, Option<CountDownStarted>),
        Error,
    >)
        requires
            old(self).wf(),
        ensures
            final(self).wf(),
            match r {
                Result::Ok(evs) => {
                    &&& register_err(*old(self), caller, amount) is None
                    &&& register_ok_state(*old(self), *final(self), caller, amount, now)
                    &&& evs.0 == (Entry { user: caller })
                    &&& evs.1 == (if old(self).countdown is None && old(self).users_vec@.len() + 1
                        >= PLAYER_REQUIRED_TO_START {
                        Option::Some(CountDownStarted { user: caller, timestamp: now })
                    } else {
                        Option::<CountDownStarted>::None
                    })
                },
                Result::Err(e) => {
                    &&& register_err(*old(self), caller, amount) == Option::Some(e)
                    &&& same_state(*final(self), *old(self))
                },
            },
    {
        if self.is_completed() {
            return Err(Error::Completed);
        }
        if amount > MAXIMUM_TOKEN || amount < MINIMUM_TOKEN {
            return Err(Error::InvalidEntryAmount);
        }
        if self.contains_user(caller) {
            return Err(Error::AlreadyGotEntry);
        }

        proof {
            vstd::std_specs::vec::axiom_spec_len(&self.users);
            lemma_total_fits(self.users@);
        }
        self.users.push((caller, amount));
        self.users_vec.push(caller);
        self.amount_collected = self.amount_collected + amount;

        let started: Option<CountDownStarted> = if self.countdown.is_none()
            && self.current_user_count() >= PLAYER_REQUIRED_TO_START {
            self.countdown = Some(now);
            Some(CountDownStarted { user: caller, timestamp: now })
        } else {
            None
        };

        proof {
            let pre = *old(self);
            let post = *self;
            assert(pre.users@.push((caller, amount)).drop_last() =~= pre.users@);
            assert(sum_stakes(post.users@) == sum_stakes(pre.users@) + amount);
            assert forall|k: int| 0 <= k < post.users_vec@.len() implies post.spec_registered(
                #[trigger] post.users_vec@[k],
            ) by {
                if k < pre.users_vec@.len() {
                    let w = choose|i: int|
                        0 <= i < pre.users@.len() && (#[trigger] pre.users@[i]).0
                            == pre.users_vec@[k];
                    assert(post.users@[w].0 == post.users_vec@[k]);
                } else {
                    assert(post.users@[pre.users@.len() as int].0 == caller);
                }
            }
            assert forall|k: int| 0 <= k < post.winners@.len() implies post.spec_registered(
                #[trigger] post.winners@[k],
            ) by {
                let w = choose|i: int|
                    0 <= i < pre.users@.len() && (#[trigger] pre.users@[i]).0 == pre.winners@[k];
                assert(post.users@[w].0 == post.winners@[k]);
            }
            // the caller was unregistered, so nothing on the roster or
            // among the winners collides with the new roster slot
            assert forall|i: int| 0 <= i < pre.users_vec@.len() implies (
            #[trigger] pre.users_vec@[i]) != caller by {
                if pre.users_vec@[i] == caller {
                    assert(pre.spec_registered(pre.users_vec@[i]));
                }
            }
            assert forall|j: int| 0 <= j < pre.winners@.len() implies (#[trigger] pre.winners@[j])
                != caller by {
                if pre.winners@[j] == caller {
                    assert(pre.spec_registered(pre.winners@[j]));
                }
            }
        }
        Ok((Entry { user: caller }, started))
    }

    /// Draw one winner: the participant at index `random mod roster
    /// length` is appended to the winners, swap-removed from the roster,
    /// and reported in the returned notification. Refused while the
    /// countdown gate blocks, once the raffle is complete, or while the
    /// roster is below quorum; any refusal leaves the state untouched.
    pub fn draw(&mut self, now: u64, random: u32) -> (r: Result<WinnerChoosen, Error>)
        requires
            old(self).wf(),
        ensures
            final(self).wf(),
            match r {
                Result::Ok(ev) => {
                    &&& draw_err(*old(self), now) is None
                    &&& draw_ok_state(*old(self), *final(self), random)
                    &&& ev == (WinnerChoosen {
                        user: old(self).users_vec@[winner_index(*old(self), random)],
                    })
                },
                Result::Err(e) => {
                    &&& draw_err(*old(self), now) == Option::Some(e)
                    &&& same_state(*final(self), *old(self))
                },
            },
    {
        match self.countdown {
            Some(t) => {
                if !(now >= t && now - t >= COUNTDOWN_MINIMUM) {
                    return Err(Error::CountDownNotStartedYet);
                }
            },
            None => {},
        }
        if self.is_completed() {
            return Err(Error::Completed);
        }

        let user_count = self.current_user_count();
        if user_count < PLAYER_REQUIRED_TO_START {
            return Err(Error::LessUsers);
        }

        let choosed_winner = (random as usize) % user_count;
        let winner = self.users_vec.swap_remove(choosed_winner);
        self.winners.push(winner);

        proof {
            let pre = *old(self);
            let post = *self;
            let idx = winner_index(pre, random);
            assert(choosed_winner as int == idx);
            assert forall|k: int| 0 <= k < post.users_vec@.len() implies post.spec_registered(
                #[trigger] post.users_vec@[k],
            ) by {
                let src: int = if k == idx {
                    pre.users_vec@.len() - 1
                } else {
                    k
                };
                assert(post.users_vec@[k] == pre.users_vec@[src]);
                assert(pre.spec_registered(pre.users_vec@[src]));
                let w = choose|i: int|
                    0 <= i < pre.users@.len() && (#[trigger] pre.users@[i]).0
                        == pre.users_vec@[src];
                assert(post.users@[w].0 == post.users_vec@[k]);
            }
            assert forall|k: int| 0 <= k < post.winners@.len() implies post.spec_registered(
                #[trigger] post.winners@[k],
            ) by {
                let u = if k < pre.winners@.len() {
                    pre.winners@[k]
                } else {
                    pre.users_vec@[idx]
                };
                assert(post.winners@[k] == u);
                assert(pre.spec_registered(u));
                let w = choose|i: int|
                    0 <= i < pre.users@.len() && (#[trigger] pre.users@[i]).0 == u;
                assert(post.users@[w].0 == u);
            }
        }
        Ok(WinnerChoosen { user: winner })
    }

    /// Read a big-endian 32-bit value out of the first four bytes of the
    /// buffer the host's randomness collaborator hands back.
    pub fn as_u32_be(arr: &[u8]) -> (r: u32)
        requires
            arr@.len() >= 4,
        ensures
            r == (arr@[0] as int) * 0x1000000 + (arr@[1] as int) * 0x10000 + (arr@[2] as int)
                * 0x100 + (arr@[3] as int),
    {
        let b0 = arr[0];
        let b1 = arr[1];
        let b2 = arr[2];
        let b3 = arr[3];
        proof {
            assert(((b0 as u32) << 24) == (b0 as u32) * 0x1000000) by (bit_vector);
            assert(((b1 as u32) << 16) == (b1 as u32) * 0x10000) by (bit_vector);
            assert(((b2 as u32) << 8) == (b2 as u32) * 0x100) by (bit_vector);
        }
        ((b0 as u32) << 24) + ((b1 as u32) << 16) + ((b2 as u32) << 8) + (b3 as u32)
    }

    /// The first and the last winner drawn so far, if any.
    pub fn winners_address(&self) -> (r: (Option<User>, Option<User>))
        ensures
            r.0 == (if self.winners@.len() == 0 {
                Option::<User>::None
            } else {
                Option::Some(self.winners@[0])
            }),
            r.1 == (if self.winners@.len() == 0 {
                Option::<User>::None
            } else {
                Option::Some(self.winners@[self.winners@.len() - 1])
            }),
    {
        if self.winners.len() == 0 {
            (None, None)
        } else {
            (Some(self.winners[0]), Some(self.winners[self.winners.len() - 1]))
        }
    }
}

} // verus!
