use vstd::prelude::*;

verus! {

/// The keys the viewer reacts to when they are released.
#[derive(Debug, Clone, Copy, PartialEq, Eq, Structural)]
pub enum Key {
    Escape,
    K,
    J,
    Other,
}

/// What the window and the scene must do in answer to an input event.
#[derive(Debug, Clone, Copy, PartialEq, Eq, Structural)]
pub enum InputAction {
    /// Grab and hide the cursor.
    GrabCursor,
    /// Release and show the cursor.
    ReleaseCursor,
    /// Raise the camera's exposure by one step.
    IncreaseExposure,
    /// Lower the camera's exposure by one step.
    DecreaseExposure,
    /// Nothing to do.
    Ignore,
}

/// Whether the cursor is captured by the viewer, which is what makes mouse
/// motion turn the camera and the wheel zoom it.
#[derive(Debug, Clone, Copy, PartialEq, Eq, Structural, Default)]
pub struct InputState {
    pub cursor_locked: bool,
}

impl InputState {
    pub fn new() -> (r: InputState)
        ensures
            !r.cursor_locked,
    {
        InputState { cursor_locked: false }
    }

    /// A click captures the cursor.
    pub fn on_mouse_up(&mut self) -> (r: InputAction)
        ensures
            final(self).cursor_locked,
            r == InputAction::GrabCursor,
    {
        self.cursor_locked = true;
        InputAction::GrabCursor
    }

    /// Escape frees the cursor; `K` and `J` step the exposure up and down.
    pub fn on_key_up(&mut self, key: Key) -> (r: InputAction)
        ensures
            key == Key::Escape ==> !final(self).cursor_locked && r == InputAction::ReleaseCursor,
            key != Key::Escape ==> final(self).cursor_locked == old(self).cursor_locked,
            key == Key::K ==> r == InputAction::IncreaseExposure,
            key == Key::J ==> r == InputAction::DecreaseExposure,
            key == Key::Other ==> r == InputAction::Ignore,
    {
        match key {
            Key::Escape => {
                self.cursor_locked = false;
                InputAction::ReleaseCursor
            },
            Key::K => InputAction::IncreaseExposure,
            Key::J => InputAction::DecreaseExposure,
            Key::Other => InputAction::Ignore,
        }
    }

    /// Mouse motion and the wheel move the camera only while the cursor is captured.
    pub fn steers_camera(&self) -> (r: bool)
        ensures
            r == self.cursor_locked,
    {
        self.cursor_locked
    }
}

} // verus!
