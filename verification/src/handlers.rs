//! The decisions of the bot's event handlers: its presence once ready,
//! leaving a voice channel its listeners left, and leaving a call whose queue
//! stayed empty too long.

use vstd::prelude::*;
use vstd::string::*;

verus! {

/// The handler of the bot's gateway events.
pub struct Handler;

/// A Discord online status.
#[derive(PartialEq, Eq, Structural, Clone, Copy, Debug)]
pub enum OnlineStatus {
    DoNotDisturb,
    Idle,
    Invisible,
    Offline,
    Online,
}

/// A presence: the activity shown as "listening to", and the status.
pub struct Presence {
    pub listening_to: String,
    pub status: OnlineStatus,
}

/// A user's voice state before an update, as the handler reads it: whether
/// the user is a bot (when the user is cached) and the channel it was in.
pub struct PreviousVoiceState {
    pub user_is_bot: Option<bool>,
    pub channel_id: Option<u64>,
}

/// The channel a voice state update asks to look at: the channel a user who
/// is not known to be a bot was in before the update.
pub open spec fn channel_to_check(old: Option<PreviousVoiceState>) -> Option<u64> {
    match old {
        None => None,
        Some(s) => if s.user_is_bot == Some(true) {
            None
        } else {
            s.channel_id
        },
    }
}

/// Whether a voice state update may be handled: a previous state of a user
/// not known to be a bot names its channel.
pub open spec fn update_defined(old: Option<PreviousVoiceState>) -> bool {
    old matches Some(s) ==> (s.user_is_bot == Some(true) || s.channel_id is Some)
}

/// Whether the bot is in `channel` with at most one member (itself) left.
pub open spec fn deserted(channel: u64, bot_channel: Option<u64>, members: Option<usize>) -> bool {
    bot_channel == Some(channel) && match members {
        Some(n) => n <= 1,
        None => false,
    }
}

impl Handler {
    /// The presence the bot takes once connected: listening to `/play`, do
    /// not disturb.
    pub fn ready(&self) -> (res: Presence)
        ensures
            res.listening_to@ == "/play"@,
            res.status == OnlineStatus::DoNotDisturb,
    {
        Presence { listening_to: String::from_str("/play"), status: OnlineStatus::DoNotDisturb }
    }

    /// The voice channel to look at after a voice state update: the one the
    /// user was in before, unless there was no previous state or the user is
    /// a bot.
    pub fn voice_state_update(&self, old: Option<PreviousVoiceState>) -> (res: Option<u64>)
        requires
            update_defined(old),
        ensures
            res == channel_to_check(old),
    {
        match old {
            None => None,
            Some(s) => {
                if let Some(true) = s.user_is_bot {
                    return None;
                }
                s.channel_id
            },
        }
    }

    /// Whether the bot leaves `channel` after a user left it: the bot is in
    /// that channel and at most one member (the bot) remains.
    pub fn leaves_channel(
        &self,
        channel: u64,
        bot_channel: Option<u64>,
        members: Option<usize>,
    ) -> (res: bool)
        ensures
            res == deserted(channel, bot_channel, members),
    {
        match (bot_channel, members) {
            (Some(b), Some(n)) => b == channel && n <= 1,
            _ => false,
        }
    }
}

/// The number of consecutive empty-queue ticks after which a call is left
/// at the next one.
pub const IDLE_LIMIT: usize = 15;

/// The idle counter after a tick, and whether the call is left on it.
pub struct IdleTick {
    pub elapsed: usize,
    pub leave: bool,
}

/// The counter after a tick from `elapsed` and whether the call is left: an
/// empty queue counts the tick and leaves past the limit, a non-empty queue
/// resets the counter.
pub open spec fn idle_next(elapsed: nat, queue_empty: bool) -> (nat, bool) {
    if queue_empty {
        (elapsed + 1, elapsed + 1 > IDLE_LIMIT)
    } else {
        (0, false)
    }
}

/// A periodic inactivity tick: counts it while the queue is empty, and tells
/// to leave once the count passes `IDLE_LIMIT`; a queue with tracks resets
/// the count.
pub fn idle_tick(elapsed: usize, queue_empty: bool) -> (res: IdleTick)
    requires
        queue_empty ==> elapsed < usize::MAX,
    ensures
        (res.elapsed as nat, res.leave) == idle_next(elapsed as nat, queue_empty),
{
    if queue_empty {
        let next = elapsed + 1;
        IdleTick { elapsed: next, leave: next > IDLE_LIMIT }
    } else {
        IdleTick { elapsed: 0, leave: false }
    }
}

/// The counter after the ticks `ticks` (each `true` for an empty queue),
/// starting from `start`.
pub open spec fn idle_after(start: nat, ticks: Seq<bool>) -> nat
    decreases ticks.len(),
{
    if ticks.len() == 0 {
        start
    } else {
        idle_next(idle_after(start, ticks.drop_last()), ticks.last()).0
    }
}

/// Whether the last of `ticks` leaves the call, starting from `start`.
pub open spec fn idle_leaves(start: nat, ticks: Seq<bool>) -> bool {
    ticks.len() > 0 && idle_next(idle_after(start, ticks.drop_last()), ticks.last()).1
}

/// The number of consecutive empty-queue ticks at the end of `ticks`.
pub open spec fn trailing_empty(ticks: Seq<bool>) -> nat
    decreases ticks.len(),
{
    if ticks.len() == 0 {
        0
    } else if ticks.last() {
        trailing_empty(ticks.drop_last()) + 1
    } else {
        0
    }
}

/// From a fresh counter, the counter is the number of consecutive ticks the
/// queue has been empty, and a tick leaves the call exactly when the queue
/// has now been empty on more than `IDLE_LIMIT` consecutive ticks.
pub proof fn lemma_idle_counts_empty_streak(ticks: Seq<bool>)
    ensures
        idle_after(0, ticks) == trailing_empty(ticks),
        idle_leaves(0, ticks) <==> (ticks.len() > 0 && ticks.last() && trailing_empty(ticks)
            > IDLE_LIMIT),
    decreases ticks.len(),
{
    if ticks.len() > 0 {
        lemma_idle_counts_empty_streak(ticks.drop_last());
    }
}

/// A queue with tracks forgets all earlier idle time: after it, the counter
/// only depends on the ticks that follow.
pub proof fn lemma_idle_reset(start: nat, before: Seq<bool>, after: Seq<bool>)
    ensures
        idle_after(start, before.push(false) + after) == idle_after(0, after),
    decreases after.len(),
{
    if after.len() == 0 {
        assert(before.push(false) + after =~= before.push(false));
        assert(before.push(false).drop_last() =~= before);
    } else {
        assert((before.push(false) + after).drop_last() =~= before.push(false) + after.drop_last());
        lemma_idle_reset(start, before, after.drop_last());
    }
}

/// The bot leaves a channel exactly when it is the one the bot is in and at
/// most one member is left; with the bot elsewhere, or the members unknown,
/// it stays.
pub proof fn lemma_deserted(channel: u64, other: u64, n: usize, members: Option<usize>)
    ensures
        deserted(channel, Some(channel), Some(n)) <==> n <= 1,
        other != channel ==> !deserted(channel, Some(other), members),
        !deserted(channel, None, members),
        !deserted(channel, Some(channel), None),
{
}

/// A voice state update looks at the channel a user left, unless there was
/// no previous state or the user is known to be a bot.
pub proof fn lemma_channel_to_check(is_bot: Option<bool>, channel: Option<u64>)
    ensures
        channel_to_check(None) is None,
        channel_to_check(Some(PreviousVoiceState { user_is_bot: Some(true), channel_id: channel }))
            is None,
        is_bot != Some(true) ==> channel_to_check(
            Some(PreviousVoiceState { user_is_bot: is_bot, channel_id: channel }),
        ) == channel,
{
}

/// The limit is fifteen ticks: from a fresh counter, the sixteenth empty
/// tick in a row is the first to leave.
pub proof fn lemma_idle_limit_is_fifteen(ticks: Seq<bool>)
    ensures
        IDLE_LIMIT == 15,
        idle_leaves(0, ticks) <==> (ticks.len() > 0 && ticks.last() && trailing_empty(ticks) >= 16),
{
    lemma_idle_counts_empty_streak(ticks);
}

} // verus!
