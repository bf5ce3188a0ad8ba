//! The widget's three answers to its canvas: what an event does to the
//! state, what is painted, and which pointer shape is shown.

use vstd::prelude::*;
use iced::widget::canvas::Cursor;
use iced::Rectangle;
use crate::event::{Button, Event, MouseEvent, Status};
use crate::state::{State, Tracking};

verus! {

/// The toolkit's axis-aligned rectangle: the area a widget occupies.
#[verifier::external_type_specification]
#[verifier::external_body]
#[verifier::reject_recursive_types(T)]
pub struct ExRectangle<T>(Rectangle<T>);

/// Whether the pointer lies over an area, as the toolkit computes it.
pub uninterp spec fn is_over(cursor: Cursor, bounds: Rectangle) -> bool;

/// `Cursor::is_over` of the toolkit. The answer depends on the two values
/// alone; it is handed on under the name above.
#[verifier::external_body]
fn cursor_is_over(cursor: &Cursor, bounds: &Rectangle) -> (over: bool)
    ensures
        over == is_over(*cursor, *bounds),
{
    cursor.is_over(bounds)
}

/// The pointer shape a widget asks for.
#[derive(Clone, Copy, Debug, PartialEq, Eq, Structural)]
pub enum Interaction {
    /// The toolkit's default shape.
    Idle,
    Crosshair,
}

/// An opaque colour by its red, green and blue parts.
#[derive(Clone, Copy, Debug, PartialEq, Eq, Structural)]
pub struct Rgb {
    pub r: u8,
    pub g: u8,
    pub b: u8,
}

/// A solid outline along the edge of the canvas.
#[derive(Clone, Copy, Debug, PartialEq, Eq, Structural)]
pub struct Border {
    /// Width of the line in pixels.
    pub width: u16,
    pub color: Rgb,
}

/// One thing to paint. Layers are painted in the order given, later ones over
/// earlier ones.
#[derive(Clone, Copy, Debug, PartialEq, Eq, Structural)]
pub enum Layer {
    /// The widget's state written out as text.
    StateDump,
    /// An outline of the whole canvas.
    Outline(Border),
}

/// The thin outline that is always there.
pub open spec fn frame_border() -> Border {
    Border { width: 2, color: Rgb { r: 0, g: 0, b: 0 } }
}

/// The wide red outline that marks a drag.
pub open spec fn drag_border() -> Border {
    Border { width: 10, color: Rgb { r: 255, g: 0, b: 0 } }
}

/// What is painted for a widget: its state as text, the thin outline, and
/// over both the red outline while a drag is under way.
pub open spec fn layers(dragging: bool) -> Seq<Layer> {
    if dragging {
        seq![Layer::StateDump, Layer::Outline(frame_border()), Layer::Outline(drag_border())]
    } else {
        seq![Layer::StateDump, Layer::Outline(frame_border())]
    }
}

/// The state that follows `before` when `event` arrives while the pointer is
/// at `cursor`. A mouse event records the pointer; the left button going down
/// or up sets or clears the drag flag. Any other event leaves everything as
/// it was.
pub open spec fn step(before: Tracking, event: Event, cursor: Cursor) -> Tracking {
    match event {
        Event::Mouse(mouse) => Tracking {
            cursor: Some(cursor),
            dragging: if mouse.starts_drag() {
                true
            } else if mouse.ends_drag() {
                false
            } else {
                before.dragging
            },
        },
        _ => before,
    }
}

/// What the widget answers to an event: mouse events are captured, and those
/// that call for a repaint carry the message; everything else is ignored.
pub open spec fn reply(event: Event) -> (Status, Option<()>) {
    match event {
        Event::Mouse(mouse) => (
            Status::Captured,
            if mouse.wants_redraw() {
                Some(())
            } else {
                None
            },
        ),
        _ => (Status::Ignored, None),
    }
}

/// The pointer shape for a pointer that is, or is not, over the widget.
pub open spec fn shape_for(over: bool) -> Interaction {
    if over {
        Interaction::Crosshair
    } else {
        Interaction::Idle
    }
}

/// The drag-tracking widget, as a canvas sees it. It borrows the state whose
/// geometry store the painter fills.
pub struct Bezier<'a> {
    pub state: &'a State,
}

impl<'a> Bezier<'a> {
    /// Takes one event, together with the pointer as it is now.
    ///
    /// A mouse event overwrites the remembered pointer; the left button going
    /// down starts a drag and its coming up ends it. The answer says whether
    /// the event was taken and whether a repaint is due. An event that is not
    /// a mouse event changes nothing at all. The geometry store is never
    /// touched here.
    pub fn update(&self, state: &mut State, event: Event, cursor: Cursor) -> (answer: (
        Status,
        Option<()>,
    ))
        ensures
            final(state).tracking() == step(old(state).tracking(), event, cursor),
            final(state).geometry() == old(state).geometry(),
            !event.is_mouse() ==> *final(state) == *old(state),
            answer == reply(event),
    {
        match event {
            Event::Mouse(mouse_event) => {
                state.set_cursor(cursor);
                let message: Option<()> = match mouse_event {
                    MouseEvent::ButtonPressed(Button::Left) => {
                        state.set_dragging(true);
                        Some(())
                    },
                    MouseEvent::CursorMoved => Some(()),
                    MouseEvent::ButtonReleased(Button::Left) => {
                        state.set_dragging(false);
                        Some(())
                    },
                    MouseEvent::CursorLeft => Some(()),
                    _ => None,
                };
                (Status::Captured, message)
            },
            _ => (Status::Ignored, None),
        }
    }

    /// What to paint for `state`, bottom layer first: the state as text, the
    /// thin black outline, and on top the wide red one while dragging.
    pub fn draw(&self, state: &State) -> (plan: Vec<Layer>)
        ensures
            plan@ == layers(state.tracking().dragging),
    {
        let mut plan: Vec<Layer> = Vec::new();
        plan.push(Layer::StateDump);
        plan.push(Layer::Outline(Border { width: 2, color: Rgb { r: 0, g: 0, b: 0 } }));
        if state.dragging() {
            plan.push(Layer::Outline(Border { width: 10, color: Rgb { r: 255, g: 0, b: 0 } }));
        }
        proof {
            assert(plan@ =~= layers(state.tracking().dragging));
        }
        plan
    }

    /// The pointer shape to show: a crosshair while the pointer is over the
    /// widget's area, the default shape otherwise.
    pub fn mouse_interaction(&self, bounds: Rectangle, cursor: Cursor) -> (shape: Interaction)
        ensures
            shape == shape_for(is_over(cursor, bounds)),
    {
        Self::interaction_for(cursor_is_over(&cursor, &bounds))
    }

    /// The pointer shape, once it is known whether the pointer is over the
    /// widget.
    pub fn interaction_for(over: bool) -> (shape: Interaction)
        ensures
            shape == shape_for(over),
    {
        if over {
            Interaction::Crosshair
        } else {
            Interaction::Idle
        }
    }
}

} // verus!
