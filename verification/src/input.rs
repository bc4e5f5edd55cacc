//! The state of the pointer and what its events ask for.

use vstd::prelude::*;
use crate::scalar::Scalar;

verus! {

/// Something the pointer did.
#[derive(Debug, Clone, Copy)]
pub enum CursorEvent {
    ButtonPressed,
    ButtonReleased,
    /// The pointer moved to this position.
    Position([Scalar; 2]),
    /// The wheel turned by this much.
    Scroll(Scalar),
}

/// What is known of the pointer.
#[derive(Debug, Clone, Copy)]
pub struct InputContext {
    pub last_mouse_pos: [Scalar; 2],
    pub mouse_pressed: bool,
    /// The pointer is over the settings panel: a press there starts no pan.
    pub mouse_over_ui: bool,
}

/// What an event of the pointer asks to be done to the display parameters.
/// The arithmetic on the numbers is left to the caller.
#[derive(Debug, Clone, Copy)]
pub enum InputAction {
    /// Nothing.
    Nothing,
    /// Move the pan offset by the way from `from` to `to`.
    Pan { from: [Scalar; 2], to: [Scalar; 2] },
    /// Change the scale factor by a wheel turn of `scroll`.
    Zoom { scroll: Scalar },
}

impl InputContext {
    /// The state after the event.
    pub open spec fn after(self, event: CursorEvent) -> InputContext {
        match event {
            CursorEvent::ButtonPressed => InputContext {
                mouse_pressed: !self.mouse_over_ui,
                ..self
            },
            CursorEvent::ButtonReleased => InputContext { mouse_pressed: false, ..self },
            CursorEvent::Position(pos) => InputContext { last_mouse_pos: pos, ..self },
            CursorEvent::Scroll(_) => self,
        }
    }

    /// What the event asks for in this state: a move of the pointer while the
    /// button is held pans, a turn of the wheel zooms.
    pub open spec fn action(self, event: CursorEvent) -> InputAction {
        match event {
            CursorEvent::Position(pos) => if self.mouse_pressed {
                InputAction::Pan { from: self.last_mouse_pos, to: pos }
            } else {
                InputAction::Nothing
            },
            CursorEvent::Scroll(scroll) => InputAction::Zoom { scroll },
            _ => InputAction::Nothing,
        }
    }

    /// Takes note of the event and says what it asks for.
    pub fn handle(&mut self, event: CursorEvent) -> (action: InputAction)
        ensures
            *final(self) == old(self).after(event),
            action == old(self).action(event),
    {
        match event {
            CursorEvent::ButtonPressed => {
                self.mouse_pressed = !self.mouse_over_ui;
                InputAction::Nothing
            },
            CursorEvent::ButtonReleased => {
                self.mouse_pressed = false;
                InputAction::Nothing
            },
            CursorEvent::Position(pos) => {
                let action = if self.mouse_pressed {
                    InputAction::Pan { from: self.last_mouse_pos, to: pos }
                } else {
                    InputAction::Nothing
                };
                self.last_mouse_pos = pos;
                action
            },
            CursorEvent::Scroll(scroll) => InputAction::Zoom { scroll },
        }
    }
}

impl Default for InputContext {
    /// The pointer at the origin, the button up, not over the panel.
    fn default() -> (input: InputContext)
        ensures
            input.last_mouse_pos == [Scalar { bits: 0 }, Scalar { bits: 0 }],
            !input.mouse_pressed,
            !input.mouse_over_ui,
    {
        let origin = Scalar { bits: 0 };
        InputContext { last_mouse_pos: [origin, origin], mouse_pressed: false, mouse_over_ui: false }
    }
}

} // verus!
