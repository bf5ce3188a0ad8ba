//! Drag tracking for a canvas widget.
//!
//! The widget remembers where the pointer was when the last mouse event
//! arrived and whether the left button is being held. Everything that only
//! decides (which state follows an event, when a repaint is due, what is
//! painted and in which order) lives here and is proved against its
//! contract; the toolkit's own values are carried through untouched.

pub mod event;
pub mod history;
pub mod program;
pub mod state;

pub use event::{Button, Event, MouseEvent, Status};
pub use program::{Bezier, Border, Interaction, Layer, Rgb};
pub use state::{State, Tracking};
