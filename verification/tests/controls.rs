//! Frame limiting, the tick state machine, file browsing and input.

use voop::input::{
    handle_key, CursorTimer, FullscreenState, InputAction, PressedKey, CURSOR_HIDE_TIMEOUT_MICROS,
};
use voop::limiter::FrameLimiter;
use voop::position::Position;
use voop::session::{PlaybackSession, Playlist, TickDecision};

#[test]
fn tick_sooner_than_interval_is_gated() {
    let mut l = FrameLimiter::new(60, 0);
    // 1/60 s is 16_666 microseconds.
    assert!(!l.should_render(16_665));
    // A gated tick does not move the reference point.
    assert_eq!(l.last_frame_time_micros, 0);
}

#[test]
fn tick_at_or_after_interval_advances() {
    let mut l = FrameLimiter::new(60, 0);
    assert!(l.should_render(16_666));
    assert_eq!(l.last_frame_time_micros, 16_666);
    assert!(!l.should_render(16_666 + 16_665));
    assert!(l.should_render(16_666 + 16_666));
}

#[test]
fn limiter_interval_comes_from_target_fps() {
    let l = FrameLimiter::new(60, 7);
    assert_eq!(l.frame_duration_micros, 16_666);
    assert_eq!(l.last_frame_time_micros, 7);
    let l = FrameLimiter::new(1, 0);
    assert_eq!(l.frame_duration_micros, 1_000_000);
}

#[test]
fn unconfigured_surface_ignores_redraws() {
    let mut s = PlaybackSession::new(60, 0);
    let d = s.tick(1_000_000, &Position::new(1, 2), 100);
    assert_eq!(d, TickDecision::Idle);
    // Even a long-overdue tick stays idle and leaves the limiter alone.
    assert_eq!(s.limiter.last_frame_time_micros, 0);
}

#[test]
fn configured_session_gates_then_advances() {
    let mut s = PlaybackSession::new(60, 0);
    s.on_surface_configured();
    assert_eq!(s.tick(10_000, &Position::new(1, 2), 100), TickDecision::Gated);
    assert_eq!(
        s.tick(16_666, &Position::new(1, 2), 100),
        TickDecision::Advance { frame_index: 50 }
    );
    // The accepted tick is the new reference point.
    assert_eq!(s.tick(16_667, &Position::new(1, 2), 100), TickDecision::Gated);
}

#[test]
fn advance_clamps_drifted_phase() {
    let mut s = PlaybackSession::new(60, 0);
    s.on_surface_configured();
    assert_eq!(
        s.tick(20_000, &Position::new(7, 4), 100),
        TickDecision::Advance { frame_index: 99 }
    );
}

#[test]
fn playlist_browses_within_bounds() {
    let mut p = Playlist::new(3, 0);
    assert_eq!(p.prev_index(), None);
    assert_eq!(p.next_index(), Some(1));
    p.commit_load(1);
    assert_eq!(p.prev_index(), Some(0));
    assert_eq!(p.next_index(), Some(2));
    p.commit_load(2);
    assert_eq!(p.next_index(), None);
    assert_eq!(p.prev_index(), Some(1));
}

#[test]
fn single_file_playlist_has_no_neighbours() {
    let p = Playlist::new(1, 0);
    assert_eq!(p.prev_index(), None);
    assert_eq!(p.next_index(), None);
}

#[test]
fn arrows_browse_files() {
    let r = handle_key(PressedKey::ArrowLeft, false);
    assert!(r.consumed);
    assert_eq!(r.action, InputAction::PrevFile);
    let r = handle_key(PressedKey::ArrowRight, true);
    assert!(r.consumed);
    assert_eq!(r.action, InputAction::NextFile);
}

#[test]
fn three_keys_toggle_fullscreen() {
    for key in [PressedKey::F11, PressedKey::KeyF, PressedKey::Space] {
        let r = handle_key(key, false);
        assert!(r.consumed);
        assert_eq!(r.action, InputAction::ToggleFullscreen);
    }
}

#[test]
fn escape_exits_fullscreen_but_passes_through_windowed() {
    let r = handle_key(PressedKey::Escape, true);
    assert!(r.consumed);
    assert_eq!(r.action, InputAction::ExitFullscreen);
    let r = handle_key(PressedKey::Escape, false);
    assert!(!r.consumed);
    assert_eq!(r.action, InputAction::NoAction);
}

#[test]
fn unbound_keys_pass_through() {
    let r = handle_key(PressedKey::Other, true);
    assert!(!r.consumed);
    assert_eq!(r.action, InputAction::NoAction);
}

#[test]
fn fullscreen_toggles_and_exits() {
    let mut f = FullscreenState::new();
    assert!(!f.is_fullscreen);
    f.toggle_fullscreen();
    assert!(f.is_fullscreen);
    f.toggle_fullscreen();
    assert!(!f.is_fullscreen);
    f.toggle_fullscreen();
    f.exit_fullscreen();
    assert!(!f.is_fullscreen);
    f.exit_fullscreen();
    assert!(!f.is_fullscreen);
}

#[test]
fn cursor_hides_after_timeout_only() {
    let mut c = CursorTimer::new(0);
    assert!(!c.update_cursor_visibility(CURSOR_HIDE_TIMEOUT_MICROS - 1));
    assert!(!c.hidden);
    assert!(c.update_cursor_visibility(CURSOR_HIDE_TIMEOUT_MICROS));
    assert!(c.hidden);
    // Already hidden: nothing further to do.
    assert!(!c.update_cursor_visibility(2 * CURSOR_HIDE_TIMEOUT_MICROS));
}

#[test]
fn mouse_activity_shows_cursor_and_restarts_clock() {
    let mut c = CursorTimer::new(0);
    c.update_cursor_visibility(CURSOR_HIDE_TIMEOUT_MICROS);
    assert!(c.hidden);
    let show = c.on_mouse_activity(3_000_000);
    assert!(show);
    assert!(!c.hidden);
    // The clock restarted: the timeout counts from the activity.
    assert!(!c.update_cursor_visibility(3_000_000 + CURSOR_HIDE_TIMEOUT_MICROS - 1));
    assert!(c.update_cursor_visibility(3_000_000 + CURSOR_HIDE_TIMEOUT_MICROS));
}

#[test]
fn activity_on_visible_cursor_needs_no_show() {
    let mut c = CursorTimer::new(0);
    let show = c.on_mouse_activity(10);
    assert!(!show);
}
