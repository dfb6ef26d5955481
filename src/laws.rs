use vstd::prelude::*;

use crate::resolver::user_channel;
use crate::session::{
    in_state, model_wf, noop, spec_on_connected, spec_on_message, spec_on_released, spec_on_timeout,
    spec_teardown, spec_trigger, Action, ManagerModel, SessionError, SessionState, TeardownReason,
};
use crate::trigger::TriggerDecision;

verus! {

/// The actions hold a connection request.
pub open spec fn has_connect(acts: Seq<Action>) -> bool {
    exists|i: int| 0 <= i < acts.len() && #[trigger] acts[i] is Connect
}

/// The actions hold a release of a connection.
pub open spec fn has_disconnect(acts: Seq<Action>) -> bool {
    exists|i: int| 0 <= i < acts.len() && #[trigger] acts[i] is Disconnect
}

/// The actions hold exactly one release of a connection.
pub open spec fn one_disconnect(acts: Seq<Action>) -> bool {
    exists|i: int|
        0 <= i < acts.len() && #[trigger] acts[i] is Disconnect && forall|j: int|
            0 <= j < acts.len() && j != i ==> !(#[trigger] acts[j] is Disconnect)
}

/// Two triggers for one guild, in either order of arrival, issue at most one
/// connection request between them, and the guild ends with at most the one
/// session that the table can hold for it.
pub proof fn lemma_triggers_connect_at_most_once(
    m: ManagerModel,
    guild_id: u64,
    user_a: u64,
    voice_states_a: Map<u64, Option<u64>>,
    msg_channel_a: u64,
    now_a: u64,
    user_b: u64,
    voice_states_b: Map<u64, Option<u64>>,
    msg_channel_b: u64,
    now_b: u64,
)
    requires
        model_wf(m),
    ensures
        ({
            let s1 = spec_trigger(m, guild_id, user_a, voice_states_a, msg_channel_a, now_a);
            let s2 = spec_trigger(s1.next, guild_id, user_b, voice_states_b, msg_channel_b, now_b);
            &&& !(has_connect(s1.actions) && has_connect(s2.actions))
            &&& has_connect(s1.actions) ==> s2.next == s1.next
        }),
{
    let s1 = spec_trigger(m, guild_id, user_a, voice_states_a, msg_channel_a, now_a);
    if has_connect(s1.actions) {
        assert(s1.next.sessions.contains_key(guild_id));
    }
}

/// While a guild's session is active, a trigger there, by message or
/// directly, changes nothing and asks for nothing, and neither does a late
/// connection result: no second connection, no second playback.
pub proof fn lemma_trigger_while_active_is_noop(
    m: ManagerModel,
    guild_id: u64,
    user_id: u64,
    bot_id: u64,
    lowered: Seq<char>,
    voice_states: Map<u64, Option<u64>>,
    msg_channel_id: u64,
    now: u64,
    connected: Result<u64, ()>,
)
    requires
        in_state(m, guild_id, SessionState::Active),
    ensures
        spec_trigger(m, guild_id, user_id, voice_states, msg_channel_id, now) == noop(m),
        spec_on_message(m, lowered, user_id, bot_id, guild_id, voice_states, msg_channel_id, now)
            == noop(m),
        spec_on_connected(m, guild_id, connected) == noop(m),
{
}

/// Two teardown requests in a row on an active session (a timer and the end
/// of the track racing) release the connection exactly once, and once the
/// release is reported the guild has no session.
pub proof fn lemma_teardown_idempotent(
    m: ManagerModel,
    guild_id: u64,
    first: TeardownReason,
    second: TeardownReason,
    released: Result<(), ()>,
)
    requires
        model_wf(m),
        in_state(m, guild_id, SessionState::Active),
    ensures
        ({
            let s1 = spec_teardown(m, guild_id, first);
            let s2 = spec_teardown(s1.next, guild_id, second);
            let s3 = spec_on_released(s2.next, guild_id, released);
            &&& one_disconnect(s1.actions)
            &&& s2 == noop(s1.next)
            &&& !has_disconnect(s3.actions)
            &&& !s3.next.sessions.contains_key(guild_id)
        }),
{
    let s1 = spec_teardown(m, guild_id, first);
    let last = s1.actions.len() - 1;
    assert(s1.actions[last] is Disconnect);
    assert forall|j: int| 0 <= j < s1.actions.len() && j != last implies !(
    #[trigger] s1.actions[j] is Disconnect) by {}
    assert(s1.next.sessions[guild_id].state == SessionState::Leaving);
}

/// A leave timer cancelled by a teardown for another reason never causes a
/// teardown later: neither right away nor after the guild has been released
/// and a new session has been started and connected there.
pub proof fn lemma_cancelled_timer_never_fires(
    m: ManagerModel,
    guild_id: u64,
    reason: TeardownReason,
    released: Result<(), ()>,
    user_id: u64,
    voice_states: Map<u64, Option<u64>>,
    msg_channel_id: u64,
    now: u64,
    connected: Result<u64, ()>,
)
    requires
        model_wf(m),
        in_state(m, guild_id, SessionState::Active),
        reason != TeardownReason::Timeout,
    ensures
        ({
            let token = m.sessions[guild_id].timeout_token->0;
            let s1 = spec_teardown(m, guild_id, reason);
            let s2 = spec_on_released(s1.next, guild_id, released);
            let s3 = spec_trigger(s2.next, guild_id, user_id, voice_states, msg_channel_id, now);
            let s4 = spec_on_connected(s3.next, guild_id, connected);
            &&& s1.actions[0] == (Action::CancelLeave { guild_id, token })
            &&& spec_on_timeout(s1.next, guild_id, token) == noop(s1.next)
            &&& spec_on_timeout(s2.next, guild_id, token) == noop(s2.next)
            &&& spec_on_timeout(s4.next, guild_id, token) == noop(s4.next)
        }),
{
    let token = m.sessions[guild_id].timeout_token->0;
    let s1 = spec_teardown(m, guild_id, reason);
    let s2 = spec_on_released(s1.next, guild_id, released);
    let s3 = spec_trigger(s2.next, guild_id, user_id, voice_states, msg_channel_id, now);
    let s4 = spec_on_connected(s3.next, guild_id, connected);
    assert(token < m.next_token);
    assert(s3.next.next_token == m.next_token);
    if in_state(s4.next, guild_id, SessionState::Active) {
        assert(s4.next.sessions[guild_id].timeout_token == Some(m.next_token));
    }
}

/// A trigger by a user who is in no voice channel asks for no connection,
/// changes nothing and reports `NoVoiceChannel` (or nothing, while the
/// guild already has a session).
pub proof fn lemma_no_voice_channel(
    m: ManagerModel,
    guild_id: u64,
    user_id: u64,
    voice_states: Map<u64, Option<u64>>,
    msg_channel_id: u64,
    now: u64,
)
    requires
        user_channel(voice_states, user_id) is None,
    ensures
        ({
            let s = spec_trigger(m, guild_id, user_id, voice_states, msg_channel_id, now);
            &&& !has_connect(s.actions)
            &&& s.next == m
            &&& !m.sessions.contains_key(guild_id) ==> s.outcome == Err::<(), SessionError>(
                SessionError::NoVoiceChannel,
            )
        }),
{
}

/// A message by the bot itself never triggers, whatever its text.
pub proof fn lemma_own_message_never_triggers(
    m: ManagerModel,
    lowered: Seq<char>,
    bot_id: u64,
    guild_id: u64,
    voice_states: Map<u64, Option<u64>>,
    msg_channel_id: u64,
    now: u64,
)
    ensures
        crate::trigger::decision(lowered, bot_id, bot_id) == TriggerDecision::Ignore,
        spec_on_message(m, lowered, bot_id, bot_id, guild_id, voice_states, msg_channel_id, now)
            == noop(m),
{
}

/// One trigger request for a guild: who posted it, what the guild's voice
/// states were, where it was posted and when.
pub struct TriggerRequest {
    pub user_id: u64,
    pub voice_states: Map<u64, Option<u64>>,
    pub msg_channel_id: u64,
    pub now: u64,
}

/// The model after the requests are applied in order to `guild_id`.
pub open spec fn after_triggers(m: ManagerModel, guild_id: u64, reqs: Seq<TriggerRequest>) -> ManagerModel
    decreases reqs.len(),
{
    if reqs.len() == 0 {
        m
    } else {
        let r = reqs[0];
        let s = spec_trigger(m, guild_id, r.user_id, r.voice_states, r.msg_channel_id, r.now);
        after_triggers(s.next, guild_id, reqs.drop_first())
    }
}

/// How many of the requests, applied in order to `guild_id`, ask for a
/// connection.
pub open spec fn connects_of_triggers(m: ManagerModel, guild_id: u64, reqs: Seq<TriggerRequest>) -> nat
    decreases reqs.len(),
{
    if reqs.len() == 0 {
        0
    } else {
        let r = reqs[0];
        let s = spec_trigger(m, guild_id, r.user_id, r.voice_states, r.msg_channel_id, r.now);
        (if has_connect(s.actions) { 1nat } else { 0nat }) + connects_of_triggers(
            s.next,
            guild_id,
            reqs.drop_first(),
        )
    }
}

/// Any burst of triggers for one guild, serialized in whatever order they
/// arrive, asks for at most one connection, and none at all while the guild
/// already has a session, which the burst then leaves unchanged.
pub proof fn lemma_trigger_burst_connects_at_most_once(
    m: ManagerModel,
    guild_id: u64,
    reqs: Seq<TriggerRequest>,
)
    ensures
        connects_of_triggers(m, guild_id, reqs) <= 1,
        m.sessions.contains_key(guild_id) ==> connects_of_triggers(m, guild_id, reqs) == 0
            && after_triggers(m, guild_id, reqs) == m,
    decreases reqs.len(),
{
    if reqs.len() > 0 {
        let r = reqs[0];
        let s = spec_trigger(m, guild_id, r.user_id, r.voice_states, r.msg_channel_id, r.now);
        lemma_trigger_burst_connects_at_most_once(s.next, guild_id, reqs.drop_first());
        if has_connect(s.actions) {
            assert(s.next.sessions.contains_key(guild_id));
        }
    }
}

} // verus!
