use vstd::prelude::*;

use crate::account::User;
use crate::engine::draw_err;
use crate::engine::draw_ok_state;
use crate::engine::register_err;
use crate::engine::register_ok_state;
use crate::engine::winner_index;
use crate::engine::Charity;
use crate::engine::COUNTDOWN_MINIMUM;
use crate::engine::MAXIMUM_TOKEN;
use crate::engine::MINIMUM_TOKEN;
use crate::engine::PLAYER_REQUIRED_TO_START;
use crate::errors::Error;

verus! {

/// Once a user has registered successfully, any further registration
/// attempt by the same user with an in-bounds stake is refused as a
/// duplicate entry, whatever that later stake is.
pub proof fn lemma_dedup(
    pre: Charity,
    post: Charity,
    u: User,
    first_stake: u128,
    second_stake: u128,
    now: u64,
)
    requires
        pre.wf(),
        register_err(pre, u, first_stake) is None,
        register_ok_state(pre, post, u, first_stake, now),
        MINIMUM_TOKEN <= second_stake <= MAXIMUM_TOKEN,
    ensures
        register_err(post, u, second_stake) == Option::Some(Error::AlreadyGotEntry),
{
    assert(post.users@[pre.users@.len() as int].0 == u);
}

/// A registration can only succeed when the stake lies
/// within the entry bounds, ends inclusive.
pub proof fn lemma_stake_bounds(pre: Charity, u: User, stake: u128)
    requires
        register_err(pre, u, stake) is None,
    ensures
        MINIMUM_TOKEN <= stake <= MAXIMUM_TOKEN,
{
}

/// Arming the countdown is a one-shot side effect of registration. The
/// gate can only be unarmed while the quorum has not been met; it becomes
/// armed on the entry that fills the roster to the quorum; and from then
/// on it keeps its original start time through every further entry.
pub proof fn lemma_countdown_arming(pre: Charity, post: Charity, u: User, stake: u128, now: u64)
    requires
        pre.wf(),
        register_err(pre, u, stake) is None,
        register_ok_state(pre, post, u, stake, now),
    ensures
        pre.countdown is None ==> pre.users_vec@.len() < PLAYER_REQUIRED_TO_START,
        (pre.countdown is None && pre.users_vec@.len() + 1 == PLAYER_REQUIRED_TO_START)
            ==> post.countdown == Option::Some(now),
        (pre.countdown is None && pre.users_vec@.len() + 1 < PLAYER_REQUIRED_TO_START)
            ==> post.countdown is None,
        pre.countdown is Some ==> post.countdown == pre.countdown,
{
}

/// How the engine turns a draw down before any selection happens: while
/// an armed timer is still running, the timing refusal is reported no
/// matter what else holds; with the timer out of the way and the raffle
/// unfinished, too small a roster is reported as `LessUsers`.
pub proof fn lemma_draw_gating(pre: Charity, now: u64)
    ensures
        (pre.spec_gate_open(now) && !pre.spec_completed() && pre.users_vec@.len()
            < PLAYER_REQUIRED_TO_START) ==> draw_err(pre, now) == Option::Some(Error::LessUsers),
        !pre.spec_gate_open(now) ==> draw_err(pre, now) == Option::Some(
            Error::CountDownNotStartedYet,
        ),
        (pre.countdown matches Some(t) && now < t + COUNTDOWN_MINIMUM) ==> draw_err(pre, now)
            == Option::Some(Error::CountDownNotStartedYet),
{
}

/// Fullness of the winners list shuts the engine: `register_err` then
/// reports `Completed` on every input, and `draw_err` does the same
/// whenever the timer is out of the way.
pub proof fn lemma_completed_blocks(pre: Charity, now: u64, u: User, stake: u128)
    requires
        pre.spec_completed(),
    ensures
        pre.spec_gate_open(now) ==> draw_err(pre, now) == Option::Some(Error::Completed),
        register_err(pre, u, stake) == Option::Some(Error::Completed),
{
}

/// A successful draw removes exactly one participant
/// from the roster, adds exactly one winner, and leaves both the collected
/// total and the participant pool unchanged.
pub proof fn lemma_draw_shrinks(pre: Charity, post: Charity, now: u64, random: u32)
    requires
        pre.wf(),
        draw_err(pre, now) is None,
        draw_ok_state(pre, post, random),
    ensures
        post.users_vec@.len() == pre.users_vec@.len() - 1,
        post.winners@.len() == pre.winners@.len() + 1,
        post.amount_collected == pre.amount_collected,
        post.users@ == pre.users@,
{
}

/// The drawn winner really leaves: after a successful draw, the newest
/// winner is the participant the random index picked, and no slot of the
/// shrunken roster holds that participant any more.
pub proof fn lemma_winner_leaves_roster(pre: Charity, post: Charity, now: u64, random: u32)
    requires
        pre.wf(),
        draw_err(pre, now) is None,
        draw_ok_state(pre, post, random),
    ensures
        post.winners@.last() == pre.users_vec@[winner_index(pre, random)],
        forall|i: int|
            0 <= i < post.users_vec@.len() ==> #[trigger] post.users_vec@[i]
                != pre.users_vec@[winner_index(pre, random)],
{
    let idx = winner_index(pre, random);
    assert forall|i: int| 0 <= i < post.users_vec@.len() implies (#[trigger] post.users_vec@[i])
        != pre.users_vec@[idx] by {
        let src: int = if i == idx {
            pre.users_vec@.len() - 1
        } else {
            i
        };
        assert(post.users_vec@[i] == pre.users_vec@[src]);
        assert(src != idx);
    }
}

} // verus!
