//! The events a canvas hands to its widget, reduced to what the widget reads.

use vstd::prelude::*;

verus! {

/// A mouse button.
#[derive(Clone, Copy, Debug, PartialEq, Eq, Structural)]
pub enum Button {
    Left,
    Right,
    Middle,
    /// Any further button, by the number the platform gives it.
    Other(u8),
}

/// A mouse event. The payloads that the widget never reads (the position of a
/// move, the amount of a scroll) are left out: the pointer's whereabouts
/// arrive separately, together with every event.
#[derive(Clone, Copy, Debug, PartialEq, Eq, Structural)]
pub enum MouseEvent {
    CursorEntered,
    CursorLeft,
    CursorMoved,
    ButtonPressed(Button),
    ButtonReleased(Button),
    WheelScrolled,
}

/// An event delivered to a canvas.
#[derive(Clone, Copy, Debug, PartialEq, Eq, Structural)]
pub enum Event {
    Mouse(MouseEvent),
    Touch,
    Keyboard,
}

/// Whether the widget took an event or left it to others.
#[derive(Clone, Copy, Debug, PartialEq, Eq, Structural)]
pub enum Status {
    Ignored,
    Captured,
}

impl MouseEvent {
    /// The left button going down: a drag begins.
    pub open spec fn starts_drag(self) -> bool {
        self == MouseEvent::ButtonPressed(Button::Left)
    }

    /// The left button coming up: a drag ends.
    pub open spec fn ends_drag(self) -> bool {
        self == MouseEvent::ButtonReleased(Button::Left)
    }

    /// The events after which the widget has to be painted again: the left
    /// button going down or up, and the pointer moving or leaving.
    pub open spec fn wants_redraw(self) -> bool {
        self.starts_drag() || self.ends_drag() || self == MouseEvent::CursorMoved
            || self == MouseEvent::CursorLeft
    }
}

impl Event {
    /// Whether this is a mouse event.
    pub open spec fn is_mouse(self) -> bool {
        self is Mouse
    }

    /// A drag begins with this event.
    pub open spec fn starts_drag(self) -> bool {
        self matches Event::Mouse(m) && m.starts_drag()
    }

    /// A drag ends with this event.
    pub open spec fn ends_drag(self) -> bool {
        self matches Event::Mouse(m) && m.ends_drag()
    }
}

} // verus!
