use disco_rs::handlers::{idle_tick, Handler, OnlineStatus, PreviousVoiceState, IDLE_LIMIT};

#[test]
fn presence_when_ready() {
    let p = Handler.ready();
    assert_eq!(p.listening_to, "/play");
    assert_eq!(p.status, OnlineStatus::DoNotDisturb);
}

#[test]
fn voice_update_without_previous_state() {
    assert_eq!(Handler.voice_state_update(None), None);
}

#[test]
fn voice_update_of_a_bot_is_ignored() {
    let old = PreviousVoiceState { user_is_bot: Some(true), channel_id: Some(5) };
    assert_eq!(Handler.voice_state_update(Some(old)), None);
    let old = PreviousVoiceState { user_is_bot: Some(true), channel_id: None };
    assert_eq!(Handler.voice_state_update(Some(old)), None);
}

#[test]
fn voice_update_of_a_user_names_the_channel() {
    let old = PreviousVoiceState { user_is_bot: Some(false), channel_id: Some(5) };
    assert_eq!(Handler.voice_state_update(Some(old)), Some(5));
    let old = PreviousVoiceState { user_is_bot: None, channel_id: Some(6) };
    assert_eq!(Handler.voice_state_update(Some(old)), Some(6));
}

#[test]
fn leaving_a_deserted_channel() {
    assert!(Handler.leaves_channel(5, Some(5), Some(1)));
    assert!(Handler.leaves_channel(5, Some(5), Some(0)));
    assert!(!Handler.leaves_channel(5, Some(5), Some(2)));
    assert!(!Handler.leaves_channel(5, Some(6), Some(1)));
    assert!(!Handler.leaves_channel(5, None, Some(1)));
    assert!(!Handler.leaves_channel(5, Some(5), None));
}

#[test]
fn idle_call_is_left_after_sixteen_empty_ticks() {
    let mut elapsed = 0;
    for tick in 1..=20usize {
        let t = idle_tick(elapsed, true);
        assert_eq!(t.elapsed, tick);
        assert_eq!(t.leave, tick > IDLE_LIMIT);
        elapsed = t.elapsed;
    }
    assert_eq!(IDLE_LIMIT, 15);
}

#[test]
fn tracks_in_queue_reset_the_idle_count() {
    let t = idle_tick(14, false);
    assert_eq!(t.elapsed, 0);
    assert!(!t.leave);
    let t = idle_tick(100, false);
    assert_eq!(t.elapsed, 0);
    assert!(!t.leave);
    let t = idle_tick(15, true);
    assert!(t.leave);
    let t = idle_tick(14, true);
    assert!(!t.leave);
}
