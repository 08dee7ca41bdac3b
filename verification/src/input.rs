//! Keyboard decisions.
//!
//! The host reacts to two keys: one ends the event loop, one toggles
//! fullscreen against the window's current state. Every key press also
//! re-uploads the uniform block, so the GPU-visible state never lags an
//! input-driven mutation. All other key handling is delegated and out
//! of this library's scope.

use vstd::prelude::*;

verus! {

/// The keys the host reacts to; everything else is `Other`.
#[derive(Clone, Copy, PartialEq, Eq, Structural, Debug)]
pub enum KeyInput {
    F11,
    F12,
    Other,
}

/// What the windowing layer is asked to do in response.
#[derive(Clone, Copy, PartialEq, Eq, Structural, Debug)]
pub enum WindowCommand {
    /// Stop the event loop.
    Exit,
    /// Enter (`true`) or leave (`false`) borderless fullscreen.
    SetFullscreen { enabled: bool },
    /// Nothing to do at the window.
    NoChange,
}

/// The decision for one keyboard event: a window command, and whether
/// the uniform block must be flushed to the device.
#[derive(Clone, Copy, PartialEq, Eq, Structural, Debug)]
pub struct KeyResponse {
    pub command: WindowCommand,
    pub flush_uniform: bool,
}

/// The keyboard rule: releases are ignored; a press flushes; the exit
/// key exits; the fullscreen key toggles against the current state.
pub open spec fn handle_keyboard_spec(
    key: KeyInput,
    pressed: bool,
    fullscreen_active: bool,
) -> KeyResponse {
    if !pressed {
        KeyResponse { command: WindowCommand::NoChange, flush_uniform: false }
    } else {
        let command = match key {
            KeyInput::F12 => WindowCommand::Exit,
            KeyInput::F11 => WindowCommand::SetFullscreen { enabled: !fullscreen_active },
            KeyInput::Other => WindowCommand::NoChange,
        };
        KeyResponse { command, flush_uniform: true }
    }
}

/// Decide the reaction to one keyboard event. `fullscreen_active` is
/// whether the window is in fullscreen as the event arrives.
pub fn handle_keyboard(key: KeyInput, pressed: bool, fullscreen_active: bool) -> (r: KeyResponse)
    ensures
        r == handle_keyboard_spec(key, pressed, fullscreen_active),
{
    if !pressed {
        KeyResponse { command: WindowCommand::NoChange, flush_uniform: false }
    } else {
        let command = match key {
            KeyInput::F12 => WindowCommand::Exit,
            KeyInput::F11 => WindowCommand::SetFullscreen { enabled: !fullscreen_active },
            KeyInput::Other => WindowCommand::NoChange,
        };
        KeyResponse { command, flush_uniform: true }
    }
}

} // verus!
