use caroline_bot::resolver::GuildSnapshot;
use caroline_bot::session::{
    play, Action, Notice, PlaybackError, SessionError, SessionManager, SessionState,
    TeardownReason, Transition,
};
use caroline_bot::LEAVE_AFTER_SECS;

const BOT: u64 = 1000;
const GUILD: u64 = 7;
const USER: u64 = 42;
const OTHER_USER: u64 = 43;
const VOICE: u64 = 300;
const OTHER_VOICE: u64 = 301;
const TEXT: u64 = 200;
const CONN: u64 = 9001;
const TRACK: u64 = 77;

fn guild_with_user() -> GuildSnapshot {
    let mut g = GuildSnapshot::new();
    g.set_voice_state(USER, Some(VOICE));
    g.set_voice_state(OTHER_USER, Some(OTHER_VOICE));
    g
}

fn count_connects(t: &Transition) -> usize {
    t.actions.iter().filter(|a| matches!(a, Action::Connect { .. })).count()
}

fn count_disconnects(t: &Transition) -> usize {
    t.actions.iter().filter(|a| matches!(a, Action::Disconnect { .. })).count()
}

fn count_plays(t: &Transition) -> usize {
    t.actions.iter().filter(|a| matches!(a, Action::Play { .. })).count()
}

/// A manager with an active, playing session in GUILD; returns its token.
fn active_manager() -> (SessionManager, u64) {
    let mut m = SessionManager::new(LEAVE_AFTER_SECS);
    let g = guild_with_user();
    m.on_message("I love sweet caroline", USER, BOT, GUILD, &g, TEXT, 0);
    m.on_connected(GUILD, Ok(CONN));
    m.on_playback_started(GUILD, Ok(TRACK));
    let token = m.session(GUILD).unwrap().timeout_token.unwrap();
    (m, token)
}

#[test]
fn trigger_joins_plays_and_announces() {
    let mut m = SessionManager::new(LEAVE_AFTER_SECS);
    let g = guild_with_user();
    let t1 = m.on_message("I love sweet caroline", USER, BOT, GUILD, &g, TEXT, 5);
    assert_eq!(t1.outcome, Ok(()));
    assert_eq!(t1.actions, vec![Action::Connect { guild_id: GUILD, channel_id: VOICE }]);
    let s = m.session(GUILD).unwrap();
    assert_eq!(s.state, SessionState::Joining);
    assert_eq!(s.created_at, 5);

    let t2 = m.on_connected(GUILD, Ok(CONN));
    assert_eq!(t2.outcome, Ok(()));
    assert_eq!(
        t2.actions,
        vec![
            Action::Say { channel_id: TEXT, notice: Notice::Joined },
            Action::Play { guild_id: GUILD, connection: CONN },
            Action::ScheduleLeave { guild_id: GUILD, token: 0, delay_secs: 3 },
        ]
    );
    let t3 = m.on_playback_started(GUILD, Ok(TRACK));
    assert_eq!(t3.actions, vec![Action::Say { channel_id: TEXT, notice: Notice::NowPlaying }]);

    let s = m.session(GUILD).unwrap();
    assert_eq!(s.state, SessionState::Active);
    assert_eq!(s.voice_channel_id, VOICE);
    assert_eq!(s.connection, Some(CONN));
    assert_eq!(s.playback, Some(TRACK));
    assert_eq!(count_connects(&t1) + count_connects(&t2) + count_connects(&t3), 1);
    assert_eq!(count_plays(&t1) + count_plays(&t2) + count_plays(&t3), 1);
}

#[test]
fn trigger_without_voice_channel() {
    let mut m = SessionManager::new(LEAVE_AFTER_SECS);
    let g = GuildSnapshot::new();
    let t = m.on_message("I love sweet caroline", USER, BOT, GUILD, &g, TEXT, 0);
    assert_eq!(t.outcome, Err(SessionError::NoVoiceChannel));
    assert_eq!(count_connects(&t), 0);
    assert!(t.actions.is_empty());
    assert_eq!(m.session(GUILD), None);
}

#[test]
fn trigger_with_user_in_no_channel() {
    let mut m = SessionManager::new(LEAVE_AFTER_SECS);
    let mut g = GuildSnapshot::new();
    g.set_voice_state(USER, None);
    let t = m.trigger(GUILD, USER, &g, TEXT, 0);
    assert_eq!(t.outcome, Err(SessionError::NoVoiceChannel));
    assert!(t.actions.is_empty());
    assert_eq!(m.session(GUILD), None);
}

#[test]
fn second_trigger_while_active_is_ignored() {
    let (mut m, _) = active_manager();
    let before = m.session(GUILD);
    let g = guild_with_user();
    let t = m.on_message("sweet caroline!", OTHER_USER, BOT, GUILD, &g, TEXT + 1, 1);
    assert_eq!(t.outcome, Ok(()));
    assert!(t.actions.is_empty());
    assert_eq!(m.session(GUILD), before);
    assert_eq!(m.session(GUILD).unwrap().voice_channel_id, VOICE);
}

#[test]
fn rapid_triggers_connect_once() {
    let mut m = SessionManager::new(LEAVE_AFTER_SECS);
    let g = guild_with_user();
    let t1 = m.trigger(GUILD, USER, &g, TEXT, 0);
    let t2 = m.trigger(GUILD, OTHER_USER, &g, TEXT, 0);
    let t3 = play(&mut m, GUILD, TEXT, OTHER_VOICE, 0);
    assert_eq!(count_connects(&t1) + count_connects(&t2) + count_connects(&t3), 1);
    assert_eq!(m.session(GUILD).unwrap().voice_channel_id, VOICE);
}

#[test]
fn guilds_are_independent() {
    let mut m = SessionManager::new(LEAVE_AFTER_SECS);
    let g = guild_with_user();
    let t1 = m.trigger(GUILD, USER, &g, TEXT, 0);
    let t2 = m.trigger(GUILD + 1, USER, &g, TEXT, 0);
    assert_eq!(count_connects(&t1), 1);
    assert_eq!(count_connects(&t2), 1);
}

#[test]
fn track_end_tears_down() {
    let (mut m, token) = active_manager();
    let t = m.on_playback_ended(GUILD);
    assert_eq!(
        t.actions,
        vec![
            Action::CancelLeave { guild_id: GUILD, token },
            Action::Disconnect { guild_id: GUILD, connection: CONN, reason: TeardownReason::NaturalEnd },
        ]
    );
    assert_eq!(m.session(GUILD).unwrap().state, SessionState::Leaving);
    let late = m.on_timeout(GUILD, token);
    assert!(late.actions.is_empty());
    let r = m.on_released(GUILD, Ok(()));
    assert_eq!(r.outcome, Ok(()));
    assert_eq!(m.session(GUILD), None);
}

#[test]
fn timeout_tears_down() {
    let (mut m, token) = active_manager();
    let t = m.on_timeout(GUILD, token);
    assert_eq!(
        t.actions,
        vec![Action::Disconnect { guild_id: GUILD, connection: CONN, reason: TeardownReason::Timeout }]
    );
    assert_eq!(count_disconnects(&t), 1);
    m.on_released(GUILD, Ok(()));
    assert_eq!(m.session(GUILD), None);
}

#[test]
fn connect_failure_discards_session() {
    let mut m = SessionManager::new(LEAVE_AFTER_SECS);
    let g = guild_with_user();
    m.on_message("I love sweet caroline", USER, BOT, GUILD, &g, TEXT, 0);
    let t = m.on_connected(GUILD, Err(()));
    assert_eq!(t.outcome, Err(SessionError::ConnectionFailed));
    assert_eq!(t.actions, vec![Action::Say { channel_id: TEXT, notice: Notice::ConnectFailed }]);
    assert_eq!(count_plays(&t), 0);
    assert_eq!(m.session(GUILD), None);
}

#[test]
fn double_teardown_disconnects_once() {
    let (mut m, token) = active_manager();
    let t1 = m.on_timeout(GUILD, token);
    let t2 = m.on_playback_ended(GUILD);
    let t3 = m.teardown(GUILD, TeardownReason::Explicit);
    let t4 = m.on_released(GUILD, Err(()));
    assert_eq!(count_disconnects(&t1) + count_disconnects(&t2) + count_disconnects(&t3), 1);
    assert!(t2.actions.is_empty());
    assert_eq!(t4.outcome, Err(SessionError::DisconnectFailed));
    assert_eq!(m.session(GUILD), None);
}

#[test]
fn stale_timer_after_new_session_is_ignored() {
    let (mut m, token) = active_manager();
    m.on_playback_ended(GUILD);
    m.on_released(GUILD, Ok(()));
    let g = guild_with_user();
    m.trigger(GUILD, USER, &g, TEXT, 10);
    m.on_connected(GUILD, Ok(CONN + 1));
    let fresh = m.session(GUILD).unwrap().timeout_token.unwrap();
    assert_ne!(fresh, token);
    let stale = m.on_timeout(GUILD, token);
    assert!(stale.actions.is_empty());
    assert_eq!(m.session(GUILD).unwrap().state, SessionState::Active);
    let t = m.on_timeout(GUILD, fresh);
    assert_eq!(count_disconnects(&t), 1);
}

#[test]
fn own_message_does_not_trigger() {
    let mut m = SessionManager::new(LEAVE_AFTER_SECS);
    let mut g = guild_with_user();
    g.set_voice_state(BOT, Some(VOICE));
    let t = m.on_message("I love sweet caroline", BOT, BOT, GUILD, &g, TEXT, 0);
    assert!(t.actions.is_empty());
    assert_eq!(m.session(GUILD), None);
}

#[test]
fn playback_load_failure_tears_down() {
    let mut m = SessionManager::new(LEAVE_AFTER_SECS);
    let g = guild_with_user();
    m.trigger(GUILD, USER, &g, TEXT, 0);
    m.on_connected(GUILD, Ok(CONN));
    let t = m.on_playback_started(GUILD, Err(PlaybackError::LoadFailed));
    assert_eq!(
        t.actions,
        vec![
            Action::CancelLeave { guild_id: GUILD, token: 0 },
            Action::Disconnect { guild_id: GUILD, connection: CONN, reason: TeardownReason::Error },
        ]
    );
    assert_eq!(m.session(GUILD).unwrap().state, SessionState::Leaving);
}

#[test]
fn playback_error_tears_down_and_late_notices_are_ignored() {
    let (mut m, _) = active_manager();
    let t = m.on_playback_error(GUILD, PlaybackError::RuntimeError);
    assert_eq!(count_disconnects(&t), 1);
    m.on_released(GUILD, Ok(()));
    assert!(m.on_playback_ended(GUILD).actions.is_empty());
    assert!(m.on_playback_error(GUILD, PlaybackError::RuntimeError).actions.is_empty());
    assert!(m.on_released(GUILD, Ok(())).actions.is_empty());
    assert_eq!(m.session(GUILD), None);
}

#[test]
fn teardown_of_joining_session_does_nothing() {
    let mut m = SessionManager::new(LEAVE_AFTER_SECS);
    let g = guild_with_user();
    m.trigger(GUILD, USER, &g, TEXT, 0);
    let t = m.teardown(GUILD, TeardownReason::Explicit);
    assert!(t.actions.is_empty());
    assert_eq!(m.session(GUILD).unwrap().state, SessionState::Joining);
}

#[test]
fn tokens_are_fresh_and_delay_is_configured() {
    let mut m = SessionManager::new(60);
    assert!(m.can_issue_token());
    let g = guild_with_user();
    m.trigger(1, USER, &g, TEXT, 0);
    m.trigger(2, USER, &g, TEXT, 0);
    let a = m.on_connected(1, Ok(10));
    let b = m.on_connected(2, Ok(11));
    assert_eq!(a.actions[2], Action::ScheduleLeave { guild_id: 1, token: 0, delay_secs: 60 });
    assert_eq!(b.actions[2], Action::ScheduleLeave { guild_id: 2, token: 1, delay_secs: 60 });
}

#[test]
fn notice_texts() {
    assert_eq!(Notice::Joined.text(), "Joined the voice channel!");
    assert_eq!(Notice::NowPlaying.text(), "Now playing your requested audio!");
    assert_eq!(Notice::ConnectFailed.text(), "Unable to join the voice channel!");
}

#[test]
fn lowered_message_triggers_only_on_lower_case_phrase() {
    let mut m = SessionManager::new(LEAVE_AFTER_SECS);
    let g = guild_with_user();
    let t = m.on_lowered_message("I love SWEET CAROLINE", USER, BOT, GUILD, &g, TEXT, 0);
    assert!(t.actions.is_empty());
    assert_eq!(m.session(GUILD), None);
    let t = m.on_lowered_message("i love sweet caroline", USER, BOT, GUILD, &g, TEXT, 0);
    assert_eq!(t.actions, vec![Action::Connect { guild_id: GUILD, channel_id: VOICE }]);
}
