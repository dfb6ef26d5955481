use std::collections::HashMap;
use vstd::prelude::*;

use crate::resolver::{get_user_voice_channel, user_channel, GuildSnapshot};
use crate::trigger::{classify, classify_lowered, decision, lower_of, TriggerDecision};

verus! {

broadcast use vstd::std_specs::hash::group_hash_axioms;

/// Where a guild's session stands. A guild without a session is idle.
#[derive(Clone, Copy, Debug, PartialEq, Eq, Structural)]
pub enum SessionState {
    Joining,
    Active,
    Leaving,
}

/// Why a session left its voice channel.
#[derive(Clone, Copy, Debug, PartialEq, Eq, Structural)]
pub enum TeardownReason {
    Timeout,
    NaturalEnd,
    Error,
    Explicit,
}

/// A failure of the playback engine.
#[derive(Clone, Copy, Debug, PartialEq, Eq, Structural)]
pub enum PlaybackError {
    LoadFailed,
    RuntimeError,
}

/// What a transition reports to its caller.
#[derive(Clone, Copy, Debug, PartialEq, Eq, Structural)]
pub enum SessionError {
    NoVoiceChannel,
    ConnectionFailed,
    DisconnectFailed,
}

/// A text notice for the channel where the trigger was posted.
#[derive(Clone, Copy, Debug, PartialEq, Eq, Structural)]
pub enum Notice {
    Joined,
    NowPlaying,
    ConnectFailed,
}

/// Work that a transition asks the surrounding system to perform.
#[derive(Clone, Copy, Debug, PartialEq, Eq, Structural)]
pub enum Action {
    /// Join the voice channel of the guild.
    Connect { guild_id: u64, channel_id: u64 },
    /// Post a notice in a text channel.
    Say { channel_id: u64, notice: Notice },
    /// Start the fixed audio resource on the connection.
    Play { guild_id: u64, connection: u64 },
    /// Arrange for `on_timeout(guild_id, token)` after `delay_secs` seconds.
    ScheduleLeave { guild_id: u64, token: u64, delay_secs: u64 },
    /// Drop the pending leave timer identified by `token`.
    CancelLeave { guild_id: u64, token: u64 },
    /// Release the connection; report back through `on_released`.
    Disconnect { guild_id: u64, connection: u64, reason: TeardownReason },
}

/// The session of one guild.
#[derive(Clone, Copy, Debug, PartialEq, Eq, Structural)]
pub struct VoiceSession {
    pub guild_id: u64,
    pub state: SessionState,
    /// Text channel that receives the notices.
    pub reply_channel_id: u64,
    /// Voice channel that the session joins.
    pub voice_channel_id: u64,
    pub connection: Option<u64>,
    pub playback: Option<u64>,
    pub timeout_token: Option<u64>,
    pub created_at: u64,
}

/// The table of sessions as a map from guild, with the next leave-timer
/// token to hand out and the configured delay before an automatic leave.
pub struct ManagerModel {
    pub sessions: Map<u64, VoiceSession>,
    pub next_token: u64,
    pub leave_after_secs: u64,
}

/// The result of one transition on the model.
pub struct Step {
    pub next: ManagerModel,
    pub outcome: Result<(), SessionError>,
    pub actions: Seq<Action>,
}

/// A session's fields agree with its state.
pub open spec fn session_wf(guild_id: u64, s: VoiceSession, next_token: u64) -> bool {
    &&& s.guild_id == guild_id
    &&& match s.state {
        SessionState::Joining => s.connection is None && s.playback is None && s.timeout_token is None,
        SessionState::Active => s.connection is Some && s.timeout_token is Some
            && s.timeout_token->0 < next_token,
        SessionState::Leaving => s.connection is Some && s.playback is None && s.timeout_token is None,
    }
}

pub open spec fn model_wf(m: ManagerModel) -> bool {
    forall|g: u64| #[trigger] m.sessions.contains_key(g) ==> session_wf(g, m.sessions[g], m.next_token)
}

/// `guild_id` has a session in state `st`.
pub open spec fn in_state(m: ManagerModel, guild_id: u64, st: SessionState) -> bool {
    m.sessions.contains_key(guild_id) && m.sessions[guild_id].state == st
}

pub open spec fn noop(m: ManagerModel) -> Step {
    Step { next: m, outcome: Ok(()), actions: seq![] }
}

pub open spec fn with_session(m: ManagerModel, s: VoiceSession) -> ManagerModel {
    ManagerModel { sessions: m.sessions.insert(s.guild_id, s), ..m }
}

pub open spec fn without_session(m: ManagerModel, guild_id: u64) -> ManagerModel {
    ManagerModel { sessions: m.sessions.remove(guild_id), ..m }
}

/// Starts a session for a voice channel that is already known: a guild that
/// has a session is left as it is; otherwise a joining session is created
/// and the connection is requested.
pub open spec fn spec_play(
    m: ManagerModel,
    guild_id: u64,
    msg_channel_id: u64,
    voice_channel_id: u64,
    now: u64,
) -> Step {
    if m.sessions.contains_key(guild_id) {
        noop(m)
    } else {
        let s = VoiceSession {
            guild_id,
            state: SessionState::Joining,
            reply_channel_id: msg_channel_id,
            voice_channel_id,
            connection: None,
            playback: None,
            timeout_token: None,
            created_at: now,
        };
        Step {
            next: with_session(m, s),
            outcome: Ok(()),
            actions: seq![Action::Connect { guild_id, channel_id: voice_channel_id }],
        }
    }
}

/// A trigger by `user_id`: nothing while the guild has a session, otherwise
/// `NoVoiceChannel` when the user is in no voice channel, otherwise a start.
pub open spec fn spec_trigger(
    m: ManagerModel,
    guild_id: u64,
    user_id: u64,
    voice_states: Map<u64, Option<u64>>,
    msg_channel_id: u64,
    now: u64,
) -> Step {
    if m.sessions.contains_key(guild_id) {
        noop(m)
    } else {
        match user_channel(voice_states, user_id) {
            None => Step { next: m, outcome: Err(SessionError::NoVoiceChannel), actions: seq![] },
            Some(c) => spec_play(m, guild_id, msg_channel_id, c, now),
        }
    }
}

/// The outcome of a connection attempt for a joining session: on success
/// it becomes active, announces itself, starts playback and schedules its
/// leave under a fresh token; on failure it is discarded and a notice is
/// posted.
pub open spec fn spec_on_connected(m: ManagerModel, guild_id: u64, result: Result<u64, ()>) -> Step {
    if in_state(m, guild_id, SessionState::Joining) {
        let s = m.sessions[guild_id];
        match result {
            Ok(conn) => {
                let token = m.next_token;
                let active = VoiceSession {
                    state: SessionState::Active,
                    connection: Some(conn),
                    timeout_token: Some(token),
                    ..s
                };
                Step {
                    next: ManagerModel {
                        sessions: m.sessions.insert(guild_id, active),
                        next_token: (token + 1) as u64,
                        leave_after_secs: m.leave_after_secs,
                    },
                    outcome: Ok(()),
                    actions: seq![
                        Action::Say { channel_id: s.reply_channel_id, notice: Notice::Joined },
                        Action::Play { guild_id, connection: conn },
                        Action::ScheduleLeave { guild_id, token, delay_secs: m.leave_after_secs },
                    ],
                }
            },
            Err(_) => Step {
                next: without_session(m, guild_id),
                outcome: Err(SessionError::ConnectionFailed),
                actions: seq![Action::Say { channel_id: s.reply_channel_id, notice: Notice::ConnectFailed }],
            },
        }
    } else {
        noop(m)
    }
}

/// Teardown of an active session: it moves to `Leaving`, drops its playback
/// and its timer (cancelled unless the timer is what fired), and the
/// connection is released. Any other state is left as it is.
pub open spec fn spec_teardown(m: ManagerModel, guild_id: u64, reason: TeardownReason) -> Step {
    if in_state(m, guild_id, SessionState::Active) {
        let s = m.sessions[guild_id];
        let leaving = VoiceSession {
            state: SessionState::Leaving,
            playback: None,
            timeout_token: None,
            ..s
        };
        let release = Action::Disconnect { guild_id, connection: s.connection->0, reason };
        Step {
            next: with_session(m, leaving),
            outcome: Ok(()),
            actions: if reason == TeardownReason::Timeout {
                seq![release]
            } else {
                seq![Action::CancelLeave { guild_id, token: s.timeout_token->0 }, release]
            },
        }
    } else {
        noop(m)
    }
}

/// The outcome of starting playback on an active session that has no track.
pub open spec fn spec_on_playback_started(
    m: ManagerModel,
    guild_id: u64,
    result: Result<u64, PlaybackError>,
) -> Step {
    if in_state(m, guild_id, SessionState::Active) && m.sessions[guild_id].playback is None {
        let s = m.sessions[guild_id];
        match result {
            Ok(h) => Step {
                next: with_session(m, VoiceSession { playback: Some(h), ..s }),
                outcome: Ok(()),
                actions: seq![Action::Say { channel_id: s.reply_channel_id, notice: Notice::NowPlaying }],
            },
            Err(_) => spec_teardown(m, guild_id, TeardownReason::Error),
        }
    } else {
        noop(m)
    }
}

/// The leave timer `token` fired: only the timer of the current active
/// session tears it down.
pub open spec fn spec_on_timeout(m: ManagerModel, guild_id: u64, token: u64) -> Step {
    if in_state(m, guild_id, SessionState::Active) && m.sessions[guild_id].timeout_token == Some(token) {
        spec_teardown(m, guild_id, TeardownReason::Timeout)
    } else {
        noop(m)
    }
}

/// The connection of a leaving session was released, or failed to be: the
/// slot is freed either way.
pub open spec fn spec_on_released(m: ManagerModel, guild_id: u64, result: Result<(), ()>) -> Step {
    if in_state(m, guild_id, SessionState::Leaving) {
        Step {
            next: without_session(m, guild_id),
            outcome: match result {
                Ok(()) => Ok(()),
                Err(()) => Err(SessionError::DisconnectFailed),
            },
            actions: seq![],
        }
    } else {
        noop(m)
    }
}

/// The result of a transition: its outcome and the actions to perform, in
/// order.
pub struct Transition {
    pub outcome: Result<(), SessionError>,
    pub actions: Vec<Action>,
}

impl Transition {
    /// This transition, with `after` the manager's new model, is `s`.
    pub open spec fn realizes(&self, after: ManagerModel, s: Step) -> bool {
        &&& after == s.next
        &&& self.outcome == s.outcome
        &&& self.actions@ == s.actions
    }

    fn none() -> (r: Transition)
        ensures
            r.outcome == Ok::<(), SessionError>(()),
            r.actions@ == Seq::<Action>::empty(),
    {
        Transition { outcome: Ok(()), actions: Vec::new() }
    }
}

/// The per-guild session table and the decisions on it. Every event of a
/// guild goes through one of its methods, which the caller serializes.
pub struct SessionManager {
    sessions: HashMap<u64, VoiceSession>,
    next_token: u64,
    leave_after_secs: u64,
}

impl View for SessionManager {
    type V = ManagerModel;

    closed spec fn view(&self) -> ManagerModel {
        ManagerModel {
            sessions: self.sessions@,
            next_token: self.next_token,
            leave_after_secs: self.leave_after_secs,
        }
    }
}

impl SessionManager {
    pub open spec fn wf(&self) -> bool {
        model_wf(self@)
    }

    /// An empty table whose sessions leave after `leave_after_secs` seconds.
    pub fn new(leave_after_secs: u64) -> (r: SessionManager)
        ensures
            r.wf(),
            r@.sessions == Map::<u64, VoiceSession>::empty(),
            r@.next_token == 0,
            r@.leave_after_secs == leave_after_secs,
    {
        SessionManager { sessions: HashMap::new(), next_token: 0, leave_after_secs }
    }

    /// The session of `guild_id`, if it has one.
    pub fn session(&self, guild_id: u64) -> (r: Option<VoiceSession>)
        ensures
            r == (if self@.sessions.contains_key(guild_id) {
                Some(self@.sessions[guild_id])
            } else {
                None
            }),
    {
        match self.sessions.get(&guild_id) {
            Some(s) => Some(*s),
            None => None,
        }
    }

    /// Whether another leave-timer token can be handed out.
    pub fn can_issue_token(&self) -> (r: bool)
        ensures
            r == (self@.next_token < u64::MAX),
    {
        self.next_token < u64::MAX
    }

    /// The connection attempt for `guild_id` succeeded with `Ok(connection)`
    /// or failed.
    pub fn on_connected(&mut self, guild_id: u64, result: Result<u64, ()>) -> (r: Transition)
        requires
            old(self).wf(),
            old(self)@.next_token < u64::MAX,
        ensures
            final(self).wf(),
            r.realizes(final(self)@, spec_on_connected(old(self)@, guild_id, result)),
    {
        let s = match self.session(guild_id) {
            Some(s) => s,
            None => return Transition::none(),
        };
        if s.state != SessionState::Joining {
            return Transition::none();
        }
        match result {
            Ok(conn) => {
                let token = self.next_token;
                let active = VoiceSession {
                    state: SessionState::Active,
                    connection: Some(conn),
                    timeout_token: Some(token),
                    ..s
                };
                self.sessions.insert(guild_id, active);
                self.next_token = token + 1;
                let actions = vec![
                    Action::Say { channel_id: s.reply_channel_id, notice: Notice::Joined },
                    Action::Play { guild_id, connection: conn },
                    Action::ScheduleLeave { guild_id, token, delay_secs: self.leave_after_secs },
                ];
                let r = Transition { outcome: Ok(()), actions };
                assert(r.actions@ =~= spec_on_connected(old(self)@, guild_id, result).actions);
                assert forall|g: u64| #[trigger] self@.sessions.contains_key(g) implies session_wf(
                    g,
                    self@.sessions[g],
                    self@.next_token,
                ) by {
                    if g != guild_id {
                        assert(old(self)@.sessions.contains_key(g));
                    }
                }
                r
            },
            Err(()) => {
                self.sessions.remove(&guild_id);
                let actions = vec![
                    Action::Say { channel_id: s.reply_channel_id, notice: Notice::ConnectFailed },
                ];
                let r = Transition { outcome: Err(SessionError::ConnectionFailed), actions };
                assert(r.actions@ =~= spec_on_connected(old(self)@, guild_id, result).actions);
                assert(self@ == without_session(old(self)@, guild_id));
                r
            },
        }
    }

    /// Tears down the active session of `guild_id` for `reason`; a guild
    /// whose session is not active is left alone, so a repeated request does
    /// nothing.
    pub fn teardown(&mut self, guild_id: u64, reason: TeardownReason) -> (r: Transition)
        requires
            old(self).wf(),
        ensures
            final(self).wf(),
            r.realizes(final(self)@, spec_teardown(old(self)@, guild_id, reason)),
    {
        let s = match self.session(guild_id) {
            Some(s) => s,
            None => return Transition::none(),
        };
        if s.state != SessionState::Active {
            return Transition::none();
        }
        let (conn, token) = match (s.connection, s.timeout_token) {
            (Some(c), Some(t)) => (c, t),
            _ => return Transition::none(),
        };
        let leaving = VoiceSession {
            state: SessionState::Leaving,
            playback: None,
            timeout_token: None,
            ..s
        };
        self.sessions.insert(guild_id, leaving);
        let release = Action::Disconnect { guild_id, connection: conn, reason };
        let actions = if reason == TeardownReason::Timeout {
            vec![release]
        } else {
            vec![Action::CancelLeave { guild_id, token }, release]
        };
        let r = Transition { outcome: Ok(()), actions };
        assert(r.actions@ =~= spec_teardown(old(self)@, guild_id, reason).actions);
        assert forall|g: u64| #[trigger] self@.sessions.contains_key(g) implies session_wf(
            g,
            self@.sessions[g],
            self@.next_token,
        ) by {
            if g != guild_id {
                assert(old(self)@.sessions.contains_key(g));
            }
        }
        r
    }
}

impl SessionManager {
    /// A trigger in `guild_id` by `user_id`, posted in `msg_channel_id`:
    /// while the guild has a session nothing happens; otherwise the user's
    /// voice channel is looked up in `guild` and, when there is one, a
    /// session starts there.
    pub fn trigger(
        &mut self,
        guild_id: u64,
        user_id: u64,
        guild: &GuildSnapshot,
        msg_channel_id: u64,
        now: u64,
    ) -> (r: Transition)
        requires
            old(self).wf(),
        ensures
            final(self).wf(),
            r.realizes(
                final(self)@,
                spec_trigger(old(self)@, guild_id, user_id, guild@, msg_channel_id, now),
            ),
    {
        if self.sessions.contains_key(&guild_id) {
            return Transition::none();
        }
        match get_user_voice_channel(user_id, guild) {
            None => Transition { outcome: Err(SessionError::NoVoiceChannel), actions: Vec::new() },
            Some(c) => play(self, guild_id, msg_channel_id, c, now),
        }
    }

    /// The lower-cased text of a message by `author_id` in `guild_id`: a
    /// trigger when it fires, nothing otherwise.
    pub fn on_lowered_message(
        &mut self,
        lowered: &str,
        author_id: u64,
        bot_id: u64,
        guild_id: u64,
        guild: &GuildSnapshot,
        msg_channel_id: u64,
        now: u64,
    ) -> (r: Transition)
        requires
            old(self).wf(),
        ensures
            final(self).wf(),
            r.realizes(
                final(self)@,
                spec_on_message(old(self)@, lowered@, author_id, bot_id, guild_id, guild@, msg_channel_id, now),
            ),
    {
        match classify_lowered(lowered, author_id, bot_id) {
            TriggerDecision::Fire => self.trigger(guild_id, author_id, guild, msg_channel_id, now),
            TriggerDecision::Ignore => Transition::none(),
        }
    }

    /// A message by `author_id` in `guild_id`: it is classified, and a
    /// trigger follows when it fires. The bot's own messages never trigger.
    pub fn on_message(
        &mut self,
        text: &str,
        author_id: u64,
        bot_id: u64,
        guild_id: u64,
        guild: &GuildSnapshot,
        msg_channel_id: u64,
        now: u64,
    ) -> (r: Transition)
        requires
            old(self).wf(),
        ensures
            final(self).wf(),
            r.realizes(
                final(self)@,
                spec_on_message(old(self)@, lower_of(text@), author_id, bot_id, guild_id, guild@, msg_channel_id, now),
            ),
            author_id == bot_id ==> r.realizes(final(self)@, noop(old(self)@)),
    {
        match classify(text, author_id, bot_id) {
            TriggerDecision::Fire => self.trigger(guild_id, author_id, guild, msg_channel_id, now),
            TriggerDecision::Ignore => Transition::none(),
        }
    }

    /// Playback on the session of `guild_id` started with `Ok(handle)` or
    /// failed; a failure tears the session down.
    pub fn on_playback_started(&mut self, guild_id: u64, result: Result<u64, PlaybackError>) -> (r: Transition)
        requires
            old(self).wf(),
        ensures
            final(self).wf(),
            r.realizes(final(self)@, spec_on_playback_started(old(self)@, guild_id, result)),
    {
        let s = match self.session(guild_id) {
            Some(s) => s,
            None => return Transition::none(),
        };
        if s.state != SessionState::Active || s.playback.is_some() {
            return Transition::none();
        }
        match result {
            Ok(h) => {
                let playing = VoiceSession { playback: Some(h), ..s };
                self.sessions.insert(guild_id, playing);
                let actions = vec![
                    Action::Say { channel_id: s.reply_channel_id, notice: Notice::NowPlaying },
                ];
                let r = Transition { outcome: Ok(()), actions };
                assert(r.actions@ =~= spec_on_playback_started(old(self)@, guild_id, result).actions);
                assert forall|g: u64| #[trigger] self@.sessions.contains_key(g) implies session_wf(
                    g,
                    self@.sessions[g],
                    self@.next_token,
                ) by {
                    if g != guild_id {
                        assert(old(self)@.sessions.contains_key(g));
                    }
                }
                r
            },
            Err(_) => self.teardown(guild_id, TeardownReason::Error),
        }
    }

    /// The track of `guild_id` ended: an active session tears down with
    /// `NaturalEnd`; a late notice is ignored.
    pub fn on_playback_ended(&mut self, guild_id: u64) -> (r: Transition)
        requires
            old(self).wf(),
        ensures
            final(self).wf(),
            r.realizes(final(self)@, spec_teardown(old(self)@, guild_id, TeardownReason::NaturalEnd)),
    {
        self.teardown(guild_id, TeardownReason::NaturalEnd)
    }

    /// The track of `guild_id` failed: an active session tears down with
    /// `Error`; a late notice is ignored.
    pub fn on_playback_error(&mut self, guild_id: u64, cause: PlaybackError) -> (r: Transition)
        requires
            old(self).wf(),
        ensures
            final(self).wf(),
            r.realizes(final(self)@, spec_teardown(old(self)@, guild_id, TeardownReason::Error)),
    {
        self.teardown(guild_id, TeardownReason::Error)
    }

    /// The leave timer `token` of `guild_id` fired.
    pub fn on_timeout(&mut self, guild_id: u64, token: u64) -> (r: Transition)
        requires
            old(self).wf(),
        ensures
            final(self).wf(),
            r.realizes(final(self)@, spec_on_timeout(old(self)@, guild_id, token)),
    {
        match self.session(guild_id) {
            Some(s) => {
                if s.state == SessionState::Active && s.timeout_token == Some(token) {
                    self.teardown(guild_id, TeardownReason::Timeout)
                } else {
                    Transition::none()
                }
            },
            None => Transition::none(),
        }
    }

    /// The release of the connection of `guild_id` finished, with `Ok` or
    /// with a failure; a leaving session is removed either way.
    pub fn on_released(&mut self, guild_id: u64, result: Result<(), ()>) -> (r: Transition)
        requires
            old(self).wf(),
        ensures
            final(self).wf(),
            r.realizes(final(self)@, spec_on_released(old(self)@, guild_id, result)),
    {
        match self.session(guild_id) {
            Some(s) => {
                if s.state != SessionState::Leaving {
                    return Transition::none();
                }
            },
            None => return Transition::none(),
        }
        self.sessions.remove(&guild_id);
        assert(self@ == without_session(old(self)@, guild_id));
        let outcome = match result {
            Ok(()) => Ok(()),
            Err(()) => Err(SessionError::DisconnectFailed),
        };
        Transition { outcome, actions: Vec::new() }
    }
}

/// Starts a session of `guild_id` in `voice_channel_id`, with notices for
/// `msg_channel_id`: a guild that has a session is left as it is; otherwise
/// a joining session is recorded and the connection is requested.
pub fn play(
    manager: &mut SessionManager,
    guild_id: u64,
    msg_channel_id: u64,
    voice_channel_id: u64,
    now: u64,
) -> (r: Transition)
    requires
        old(manager).wf(),
    ensures
        final(manager).wf(),
        r.realizes(final(manager)@, spec_play(old(manager)@, guild_id, msg_channel_id, voice_channel_id, now)),
{
    if manager.sessions.contains_key(&guild_id) {
        return Transition::none();
    }
    let s = VoiceSession {
        guild_id,
        state: SessionState::Joining,
        reply_channel_id: msg_channel_id,
        voice_channel_id,
        connection: None,
        playback: None,
        timeout_token: None,
        created_at: now,
    };
    manager.sessions.insert(guild_id, s);
    let r = Transition {
        outcome: Ok(()),
        actions: vec![Action::Connect { guild_id, channel_id: voice_channel_id }],
    };
    assert(r.actions@ =~= spec_play(old(manager)@, guild_id, msg_channel_id, voice_channel_id, now).actions);
    assert forall|g: u64| #[trigger] manager@.sessions.contains_key(g) implies session_wf(
        g,
        manager@.sessions[g],
        manager@.next_token,
    ) by {
        if g != guild_id {
            assert(old(manager)@.sessions.contains_key(g));
        }
    }
    r
}

impl Notice {
    /// The text posted for this notice.
    pub fn text(&self) -> (r: String)
        ensures
            r@ == notice_text(*self)@,
    {
        match self {
            Notice::Joined => String::from_str("Joined the voice channel!"),
            Notice::NowPlaying => String::from_str("Now playing your requested audio!"),
            Notice::ConnectFailed => String::from_str("Unable to join the voice channel!"),
        }
    }
}

/// The text of each notice.
pub open spec fn notice_text(n: Notice) -> &'static str {
    match n {
        Notice::Joined => "Joined the voice channel!",
        Notice::NowPlaying => "Now playing your requested audio!",
        Notice::ConnectFailed => "Unable to join the voice channel!",
    }
}

/// A message: a trigger by its author when its lower-cased text `lowered`
/// fires, nothing otherwise.
pub open spec fn spec_on_message(
    m: ManagerModel,
    lowered: Seq<char>,
    author_id: u64,
    bot_id: u64,
    guild_id: u64,
    voice_states: Map<u64, Option<u64>>,
    msg_channel_id: u64,
    now: u64,
) -> Step {
    if decision(lowered, author_id, bot_id) == TriggerDecision::Fire {
        spec_trigger(m, guild_id, author_id, voice_states, msg_channel_id, now)
    } else {
        noop(m)
    }
}

} // verus!
