//! Keyboard, fullscreen and cursor-visibility decisions.
//!
//! The window system delivers raw key and mouse events; everything the
//! player decides about them — which keys do what, when a key is consumed,
//! when the idle cursor disappears — is settled here on plain values, and
//! the application merely carries the answers out.

use vstd::prelude::*;

verus! {

/// The keys the player reacts to, every other key mapped to `Other`.
#[derive(Clone, Copy, Debug, PartialEq, Eq, Structural)]
pub enum PressedKey {
    F11,
    KeyF,
    Space,
    Escape,
    ArrowLeft,
    ArrowRight,
    Other,
}

/// What a key press asks the player to do.
#[derive(Clone, Copy, Debug, PartialEq, Eq, Structural)]
pub enum InputAction {
    ToggleFullscreen,
    ExitFullscreen,
    PrevFile,
    NextFile,
    NoAction,
}

/// A key press's outcome: the action it asks for, and whether the press is
/// consumed or left for the window-level handlers.
#[derive(Clone, Copy, Debug, PartialEq, Eq, Structural)]
pub struct InputResponse {
    pub consumed: bool,
    pub action: InputAction,
}

/// The player's key bindings: the arrows browse files, three keys toggle
/// fullscreen, and escape is consumed only while fullscreen — as an exit —
/// so that a windowed escape stays available to the window handlers.
pub open spec fn response_for(key: PressedKey, is_fullscreen: bool) -> InputResponse {
    match key {
        PressedKey::ArrowLeft => InputResponse { consumed: true, action: InputAction::PrevFile },
        PressedKey::ArrowRight => InputResponse { consumed: true, action: InputAction::NextFile },
        PressedKey::F11 => InputResponse { consumed: true, action: InputAction::ToggleFullscreen },
        PressedKey::KeyF => InputResponse { consumed: true, action: InputAction::ToggleFullscreen },
        PressedKey::Space => InputResponse {
            consumed: true,
            action: InputAction::ToggleFullscreen,
        },
        PressedKey::Escape => if is_fullscreen {
            InputResponse { consumed: true, action: InputAction::ExitFullscreen }
        } else {
            InputResponse { consumed: false, action: InputAction::NoAction }
        },
        PressedKey::Other => InputResponse { consumed: false, action: InputAction::NoAction },
    }
}

/// Maps a pressed key to the action it asks for, per `response_for`.
pub fn handle_key(key: PressedKey, is_fullscreen: bool) -> (r: InputResponse)
    ensures
        r == response_for(key, is_fullscreen),
{
    match key {
        PressedKey::ArrowLeft => InputResponse { consumed: true, action: InputAction::PrevFile },
        PressedKey::ArrowRight => InputResponse { consumed: true, action: InputAction::NextFile },
        PressedKey::F11 => InputResponse { consumed: true, action: InputAction::ToggleFullscreen },
        PressedKey::KeyF => InputResponse { consumed: true, action: InputAction::ToggleFullscreen },
        PressedKey::Space => InputResponse {
            consumed: true,
            action: InputAction::ToggleFullscreen,
        },
        PressedKey::Escape => {
            if is_fullscreen {
                InputResponse { consumed: true, action: InputAction::ExitFullscreen }
            } else {
                InputResponse { consumed: false, action: InputAction::NoAction }
            }
        },
        PressedKey::Other => InputResponse { consumed: false, action: InputAction::NoAction },
    }
}

/// Whether the window is fullscreen.
#[derive(Clone, Copy, Debug, PartialEq, Eq, Structural)]
pub struct FullscreenState {
    pub is_fullscreen: bool,
}

impl FullscreenState {
    pub fn new() -> (s: FullscreenState)
        ensures
            !s.is_fullscreen,
    {
        FullscreenState { is_fullscreen: false }
    }

    /// Flips between fullscreen and windowed.
    pub fn toggle_fullscreen(&mut self)
        ensures
            final(self).is_fullscreen == !old(self).is_fullscreen,
    {
        self.is_fullscreen = !self.is_fullscreen;
    }

    /// Leaves fullscreen; already-windowed is left as it is.
    pub fn exit_fullscreen(&mut self)
        ensures
            !final(self).is_fullscreen,
    {
        self.is_fullscreen = false;
    }
}

/// How long the mouse must rest before the cursor is hidden.
pub const CURSOR_HIDE_TIMEOUT_MICROS: u64 = 1_000_000;

/// Hides the cursor over a resting mouse and shows it again on activity.
pub struct CursorTimer {
    /// When the mouse last moved, clicked or scrolled.
    pub last_activity_micros: u64,
    /// Whether the cursor is currently hidden.
    pub hidden: bool,
}

impl CursorTimer {
    pub fn new(now_micros: u64) -> (t: CursorTimer)
        ensures
            t.last_activity_micros == now_micros,
            !t.hidden,
    {
        CursorTimer { last_activity_micros: now_micros, hidden: false }
    }

    /// Takes mouse activity: the inactivity clock restarts and the cursor
    /// becomes visible.  Returns whether it has to be shown — that is,
    /// whether it was hidden.
    pub fn on_mouse_activity(&mut self, now_micros: u64) -> (show: bool)
        ensures
            final(self).last_activity_micros == now_micros,
            !final(self).hidden,
            show == old(self).hidden,
    {
        let show = self.hidden;
        self.last_activity_micros = now_micros;
        self.hidden = false;
        show
    }

    /// Per-tick check: a visible cursor over a mouse that has rested for
    /// the timeout is hidden now.  Returns whether it has to be hidden.
    pub fn update_cursor_visibility(&mut self, now_micros: u64) -> (hide: bool)
        requires
            now_micros >= old(self).last_activity_micros,
        ensures
            hide == (!old(self).hidden && (now_micros - old(self).last_activity_micros
                >= CURSOR_HIDE_TIMEOUT_MICROS)),
            final(self).hidden == (old(self).hidden || hide),
            final(self).last_activity_micros == old(self).last_activity_micros,
    {
        let overdue: bool = now_micros - self.last_activity_micros >= CURSOR_HIDE_TIMEOUT_MICROS;
        let must_hide: bool = !self.hidden && overdue;
        if must_hide {
            self.hidden = true;
        }
        must_hide
    }
}

} // verus!
