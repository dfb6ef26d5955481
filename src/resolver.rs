use std::collections::HashMap;
use vstd::prelude::*;

verus! {

broadcast use vstd::std_specs::hash::group_hash_axioms;

/// What the library knows of a guild: for each user with a voice state, the
/// voice channel that user occupies, if any.
pub struct GuildSnapshot {
    voice_states: HashMap<u64, Option<u64>>,
}

impl View for GuildSnapshot {
    type V = Map<u64, Option<u64>>;

    closed spec fn view(&self) -> Map<u64, Option<u64>> {
        self.voice_states@
    }
}

/// The voice channel that `user_id` occupies according to `voice_states`.
pub open spec fn user_channel(voice_states: Map<u64, Option<u64>>, user_id: u64) -> Option<u64> {
    if voice_states.contains_key(user_id) {
        voice_states[user_id]
    } else {
        None
    }
}

impl GuildSnapshot {
    /// A guild where nobody has a voice state.
    pub fn new() -> (r: GuildSnapshot)
        ensures
            r@ == Map::<u64, Option<u64>>::empty(),
    {
        GuildSnapshot { voice_states: HashMap::new() }
    }

    /// Records that `user_id` is in `channel_id` (or in no channel).
    pub fn set_voice_state(&mut self, user_id: u64, channel_id: Option<u64>)
        ensures
            final(self)@ == old(self)@.insert(user_id, channel_id),
    {
        self.voice_states.insert(user_id, channel_id);
    }
}

/// The voice channel that the user is connected to in the guild, or `None`
/// when the user has no voice state there or is in no channel.
pub fn get_user_voice_channel(user_id: u64, guild: &GuildSnapshot) -> (r: Option<u64>)
    ensures
        r == user_channel(guild@, user_id),
{
    match guild.voice_states.get(&user_id) {
        Some(c) => *c,
        None => None,
    }
}

} // verus!
