use vstd::prelude::*;

use crate::keyboard::{spec_pressed, spec_settle, ButtonState, KeyCode, KeyboardState};

verus! {

/// Input state tracking all input devices. (Window events are translated
/// into key presses and releases by the host and fed to the keyboard.)
#[derive(Debug, Default)]
pub struct Input {
    keyboard: KeyboardState,
}

impl Input {
    /// The tracked keyboard state.
    pub closed spec fn spec_keyboard(self) -> KeyboardState {
        self.keyboard
    }

    /// The keyboard is well-formed.
    pub open spec fn wf(self) -> bool {
        self.spec_keyboard().wf()
    }

    /// Fresh input state: no key is pressed.
    pub fn new() -> (inp: Input)
        ensures
            inp.wf(),
            forall|key: KeyCode| inp.spec_keyboard().spec_state(key) == ButtonState::Released,
    {
        Input { keyboard: KeyboardState::new() }
    }

    /// Record a key press.
    pub fn on_key_pressed(&mut self, key: KeyCode)
        requires
            old(self).wf(),
        ensures
            final(self).wf(),
            key != KeyCode::Unknown ==> {
                &&& final(self).spec_keyboard().spec_state(key) == (if spec_pressed(
                    old(self).spec_keyboard().spec_state(key),
                ) {
                    old(self).spec_keyboard().spec_state(key)
                } else {
                    ButtonState::JustPressed
                })
                &&& forall|k2: KeyCode|
                    k2 != key ==> final(self).spec_keyboard().spec_state(k2) == old(self).spec_keyboard().spec_state(k2)
            },
            key == KeyCode::Unknown ==> *final(self) == *old(self),
    {
        self.keyboard.on_key_pressed(key);
    }

    /// Record a key release.
    pub fn on_key_released(&mut self, key: KeyCode)
        requires
            old(self).wf(),
        ensures
            final(self).wf(),
            key != KeyCode::Unknown ==> {
                &&& final(self).spec_keyboard().spec_state(key) == (if spec_pressed(
                    old(self).spec_keyboard().spec_state(key),
                ) {
                    ButtonState::JustReleased
                } else {
                    old(self).spec_keyboard().spec_state(key)
                })
                &&& forall|k2: KeyCode|
                    k2 != key ==> final(self).spec_keyboard().spec_state(k2) == old(self).spec_keyboard().spec_state(k2)
            },
            key == KeyCode::Unknown ==> *final(self) == *old(self),
    {
        self.keyboard.on_key_released(key);
    }

    /// Settle edge states at the end of a frame.
    pub fn end_frame(&mut self)
        requires
            old(self).wf(),
        ensures
            final(self).wf(),
            forall|key: KeyCode| final(self).spec_keyboard().spec_state(key) == spec_settle(
                old(self).spec_keyboard().spec_state(key),
            ),
    {
        self.keyboard.end_frame();
    }

    /// Whether a key is currently down.
    pub fn is_key_pressed(&self, key: KeyCode) -> (r: bool)
        requires
            self.wf(),
        ensures
            r == spec_pressed(self.spec_keyboard().spec_state(key)),
    {
        self.keyboard.is_pressed(key)
    }

    /// Whether a key was pressed this frame.
    pub fn is_key_just_pressed(&self, key: KeyCode) -> (r: bool)
        requires
            self.wf(),
        ensures
            r == (self.spec_keyboard().spec_state(key) == ButtonState::JustPressed),
    {
        self.keyboard.is_just_pressed(key)
    }

    /// Whether a key was released this frame.
    pub fn is_key_just_released(&self, key: KeyCode) -> (r: bool)
        requires
            self.wf(),
        ensures
            r == (self.spec_keyboard().spec_state(key) == ButtonState::JustReleased),
    {
        self.keyboard.is_just_released(key)
    }

    /// The keyboard state.
    pub fn keyboard(&self) -> (r: &KeyboardState)
        ensures
            *r == self.spec_keyboard(),
    {
        &self.keyboard
    }
}

} // verus!
