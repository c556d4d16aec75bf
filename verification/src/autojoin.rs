//! Auto-join reaction to room invitations.
//!
//! On a membership event that invites the bot itself, the bot tries to join
//! the room, retrying with exponential backoff: the first retry waits 2
//! seconds, each further retry doubles the wait, and once the doubled delay
//! would reach an hour the attempt is abandoned.

use vstd::arithmetic::power2::lemma2_to64;
use vstd::arithmetic::power2::lemma_pow2_strictly_increases;
use vstd::arithmetic::power2::lemma_pow2_unfold;
use vstd::arithmetic::power2::pow2;
use vstd::prelude::*;

verus! {

/// New membership state carried by a membership event.
pub enum MembershipState {
    Invited,
    Joined,
    Left,
}

/// A membership event, reduced to what the auto-joiner reads: whose
/// membership changed, and to what.
pub struct MembershipEvent {
    pub target: String,
    pub state: MembershipState,
}

/// Whether a membership event should start a join-retry task: only an
/// invitation addressed to the bot's own identity does.
pub fn should_attempt_join(event: &MembershipEvent, own_identity: &String) -> (r: bool)
    ensures
        r == (event.target@ == own_identity@ && event.state is Invited),
{
    if !(event.target == *own_identity) {
        return false;
    }
    match event.state {
        MembershipState::Invited => true,
        _ => false,
    }
}

/// Delay, in seconds, of the first retry after a failed join.
pub const INITIAL_JOIN_DELAY_SECS: u64 = 2;

/// Once the backoff delay reaches this many seconds, retrying stops.
pub const JOIN_GIVE_UP_SECS: u64 = 3600;

/// Backoff state of one join-retry task: the wait before the next retry.
pub struct JoinBackoff {
    pub delay_secs: u64,
}

/// What a join-retry task does after one more failed join attempt.
pub enum JoinStep {
    /// Sleep `sleep_secs`, then attempt the join again with backoff `next`.
    Retry { sleep_secs: u64, next: JoinBackoff },
    /// Sleep `sleep_secs`, then report the failure and stop retrying.
    GiveUp { sleep_secs: u64 },
}

/// Backoff state before any join attempt has failed.
pub fn initial_backoff() -> (b: JoinBackoff)
    ensures
        b.delay_secs == INITIAL_JOIN_DELAY_SECS,
{
    JoinBackoff { delay_secs: INITIAL_JOIN_DELAY_SECS }
}

/// Decides how a join-retry task reacts to one failed join attempt: it always
/// sleeps for the current delay, then either retries with the delay doubled
/// or, when the doubled delay reaches `JOIN_GIVE_UP_SECS`, gives up.
pub fn on_join_failure(b: &JoinBackoff) -> (s: JoinStep)
    ensures
        2 * b.delay_secs >= JOIN_GIVE_UP_SECS ==> s == (JoinStep::GiveUp {
            sleep_secs: b.delay_secs,
        }),
        2 * b.delay_secs < JOIN_GIVE_UP_SECS ==> (s matches JoinStep::Retry { sleep_secs, next }
            && sleep_secs == b.delay_secs && next.delay_secs == 2 * b.delay_secs),
{
    if b.delay_secs >= JOIN_GIVE_UP_SECS / 2 {
        JoinStep::GiveUp { sleep_secs: b.delay_secs }
    } else {
        JoinStep::Retry {
            sleep_secs: b.delay_secs,
            next: JoinBackoff { delay_secs: 2 * b.delay_secs },
        }
    }
}

/// The delay in force when the `k`-th join failure is handled, starting from
/// the initial delay and doubling on every failure, as `on_join_failure`
/// doubles it.
pub open spec fn backoff_delay(k: nat) -> int
    decreases k,
{
    if k == 0 {
        INITIAL_JOIN_DELAY_SECS as int
    } else {
        2 * backoff_delay((k - 1) as nat)
    }
}

/// Law: repeated join failures retry after sleeps of 2, 4, 8, … seconds —
/// the `k`-th failure sleeps `2 * pow2(k)` seconds — and exactly from the
/// tenth failure on, where the doubled delay reaches an hour, the task gives
/// up and no further join attempt occurs.
pub proof fn lemma_backoff_schedule(k: nat)
    ensures
        backoff_delay(k) == 2 * pow2(k),
        k < 10 ==> 2 * backoff_delay(k) < JOIN_GIVE_UP_SECS,
        k >= 10 ==> 2 * backoff_delay(k) >= JOIN_GIVE_UP_SECS,
    decreases k,
{
    lemma2_to64();
    if k == 0 {
    } else {
        lemma_backoff_schedule((k - 1) as nat);
        lemma_pow2_unfold(k);
        if k >= 10 && k != 10 {
            lemma_pow2_strictly_increases(10, k);
        }
    }
}

} // verus!
