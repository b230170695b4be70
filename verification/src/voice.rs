//! Which voice channel a command's author and the bot are in.

use std::collections::HashMap;

use vstd::prelude::*;

verus! {

broadcast use vstd::std_specs::hash::group_hash_axioms;

/// The voice states of a guild, as the checks read them: for each user with
/// a voice state, the voice channel it is in, if any.
pub struct GuildVoice {
    pub voice_states: HashMap<u64, Option<u64>>,
}

/// The voice channel of `user` in `states`: none without a voice state.
pub open spec fn channel_of(states: Map<u64, Option<u64>>, user: u64) -> Option<u64> {
    if states.contains_key(user) {
        states[user]
    } else {
        None
    }
}

/// What a play request finds in the voice channels.
#[derive(PartialEq, Eq, Structural, Clone, Copy, Debug)]
pub enum VoiceTarget {
    /// The author is in no voice channel.
    NotInVoice,
    /// The bot is in a voice channel other than the author's.
    OtherChannel,
    /// The bot may join (or stay in) this channel, the author's.
    Join(u64),
}

/// The voice target for an author in `user` and the bot in `bot`.
pub open spec fn target_of(user: Option<u64>, bot: Option<u64>) -> VoiceTarget {
    match user {
        None => VoiceTarget::NotInVoice,
        Some(c) => match bot {
            Some(b) => if b != c {
                VoiceTarget::OtherChannel
            } else {
                VoiceTarget::Join(c)
            },
            None => VoiceTarget::Join(c),
        },
    }
}

/// Whether an author in `user` may control the bot in `bot`: the author is
/// in a voice channel, and the bot in no other one.
pub open spec fn shares_channel(user: Option<u64>, bot: Option<u64>) -> bool {
    match user {
        Some(c) => match bot {
            Some(b) => b == c,
            None => true,
        },
        None => false,
    }
}

impl GuildVoice {
    /// The voice channel `user` is in.
    pub fn channel_of(&self, user: u64) -> (res: Option<u64>)
        ensures
            res == channel_of(self.voice_states@, user),
    {
        match self.voice_states.get(&user) {
            Some(c) => *c,
            None => None,
        }
    }
}

/// Where a play request of `author_id` can connect the bot `bot_id` to: the
/// author's voice channel, unless the author is in none or the bot is in
/// another one.
pub fn voice_target(guild: &GuildVoice, author_id: u64, bot_id: u64) -> (res: VoiceTarget)
    ensures
        res == target_of(
            channel_of(guild.voice_states@, author_id),
            channel_of(guild.voice_states@, bot_id),
        ),
{
    let channel = guild.channel_of(author_id);
    let bot_channel = guild.channel_of(bot_id);
    match channel {
        Some(c) => match bot_channel {
            Some(b) => if c != b {
                VoiceTarget::OtherChannel
            } else {
                VoiceTarget::Join(c)
            },
            None => VoiceTarget::Join(c),
        },
        None => VoiceTarget::NotInVoice,
    }
}

/// Whether the author `author_id` is in a voice channel and the bot `bot_id`
/// is in no other one.
pub fn check_vc(guild: &GuildVoice, author_id: u64, bot_id: u64) -> (res: bool)
    ensures
        res == shares_channel(
            channel_of(guild.voice_states@, author_id),
            channel_of(guild.voice_states@, bot_id),
        ),
{
    let channel = guild.channel_of(author_id);
    let bot_channel = guild.channel_of(bot_id);
    match channel {
        Some(c) => {
            if let Some(b) = bot_channel {
                if c != b {
                    return false;
                }
            }
            true
        },
        None => false,
    }
}

/// The check of the skip and stop commands lets an author through exactly
/// when a play request of the same author would connect the bot.
pub proof fn lemma_check_vc_agrees_with_play(states: Map<u64, Option<u64>>, author: u64, bot: u64)
    ensures
        shares_channel(channel_of(states, author), channel_of(states, bot)) <==> target_of(
            channel_of(states, author),
            channel_of(states, bot),
        ) is Join,
{
}

/// The author and the bot in known channels: play joins the author's
/// channel exactly when it is the bot's, and is refused as another channel
/// whenever they differ; skip and stop are allowed exactly when they are the
/// same. An author in no channel is always refused, and a bot in no channel
/// follows the author.
pub proof fn lemma_voice_channels_compared(c: u64, b: u64, bot: Option<u64>)
    ensures
        target_of(Some(c), Some(b)) == VoiceTarget::Join(c) <==> b == c,
        b != c ==> target_of(Some(c), Some(b)) == VoiceTarget::OtherChannel,
        shares_channel(Some(c), Some(b)) <==> b == c,
        target_of(None, bot) == VoiceTarget::NotInVoice,
        !shares_channel(None, bot),
        target_of(Some(c), None) == VoiceTarget::Join(c),
        shares_channel(Some(c), None),
        target_of(Some(c), bot) matches VoiceTarget::Join(j) ==> j == c,
{
}

} // verus!
