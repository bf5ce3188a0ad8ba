//! What holds of the widget's state after any run of events.
//!
//! A run is a sequence of events, each paired with the pointer as it was when
//! the event arrived. `replay` is the state after the whole run; the lemmas
//! below say what that state is without going through the run step by step.

use vstd::prelude::*;
use iced::widget::canvas::Cursor;
use crate::event::Event;
use crate::program::step;
use crate::state::Tracking;

verus! {

/// The state after `inputs` have arrived, in order, starting from `start`.
pub open spec fn replay(start: Tracking, inputs: Seq<(Event, Cursor)>) -> Tracking
    decreases inputs.len(),
{
    if inputs.len() == 0 {
        start
    } else {
        step(replay(start, inputs.drop_last()), inputs.last().0, inputs.last().1)
    }
}

/// The most recent mouse event of the run is the one at position `i`.
pub open spec fn last_mouse_event_at(inputs: Seq<(Event, Cursor)>, i: int) -> bool {
    &&& 0 <= i < inputs.len()
    &&& inputs[i].0.is_mouse()
    &&& forall|j: int| i < j < inputs.len() ==> !(#[trigger] inputs[j]).0.is_mouse()
}

/// The left button went down at position `i` and has not come up since.
pub open spec fn held_since(inputs: Seq<(Event, Cursor)>, i: int) -> bool {
    &&& 0 <= i < inputs.len()
    &&& inputs[i].0.starts_drag()
    &&& forall|j: int| i < j < inputs.len() ==> !(#[trigger] inputs[j]).0.ends_drag()
}

/// The left button never came up.
pub open spec fn never_released(inputs: Seq<(Event, Cursor)>) -> bool {
    forall|j: int| 0 <= j < inputs.len() ==> !(#[trigger] inputs[j]).0.ends_drag()
}

/// The remembered pointer is the one that came with the most recent mouse
/// event, whatever happened before and whatever other events followed.
pub proof fn lemma_cursor_is_latest(start: Tracking, inputs: Seq<(Event, Cursor)>, i: int)
    requires
        last_mouse_event_at(inputs, i),
    ensures
        replay(start, inputs).cursor == Some(inputs[i].1),
    decreases inputs.len(),
{
    let n = inputs.len() - 1;
    if i < n {
        let shorter = inputs.drop_last();
        assert(!inputs[n].0.is_mouse());
        assert(last_mouse_event_at(shorter, i)) by {
            assert(forall|j: int| i < j < shorter.len() ==> shorter[j] == inputs[j]);
        }
        lemma_cursor_is_latest(start, shorter, i);
    }
}

/// Events that are not mouse events never change the state: after a run
/// without a mouse event the state is the one the run started from.
pub proof fn lemma_other_events_change_nothing(start: Tracking, inputs: Seq<(Event, Cursor)>)
    requires
        forall|j: int| 0 <= j < inputs.len() ==> !(#[trigger] inputs[j]).0.is_mouse(),
    ensures
        replay(start, inputs) == start,
    decreases inputs.len(),
{
    if inputs.len() > 0 {
        let shorter = inputs.drop_last();
        assert(!inputs[inputs.len() - 1].0.is_mouse());
        assert(forall|j: int| 0 <= j < shorter.len() ==> shorter[j] == inputs[j]);
        lemma_other_events_change_nothing(start, shorter);
    }
}

/// A drag is under way exactly if the left button went down at some point
/// and has not come up since, or if the run started in a drag and the button
/// never came up.
pub proof fn lemma_dragging_iff_held(start: Tracking, inputs: Seq<(Event, Cursor)>)
    ensures
        replay(start, inputs).dragging <==> (exists|i: int| held_since(inputs, i)) || (
        start.dragging && never_released(inputs)),
    decreases inputs.len(),
{
    if inputs.len() > 0 {
        let n = inputs.len() - 1;
        let shorter = inputs.drop_last();
        let event = inputs[n].0;
        lemma_dragging_iff_held(start, shorter);
        assert(forall|j: int| 0 <= j < n ==> shorter[j] == inputs[j]);
        if event.starts_drag() {
            assert(held_since(inputs, n));
        } else if event.ends_drag() {
            assert(forall|i: int| 0 <= i < n ==> !held_since(inputs, i));
        } else {
            assert(never_released(inputs) == never_released(shorter));
            assert(forall|i: int| held_since(inputs, i) == held_since(shorter, i));
        }
    }
}

/// From a widget that has seen nothing, a drag is under way exactly if the
/// left button went down at some point and has not come up since.
pub proof fn lemma_fresh_dragging_iff_held(inputs: Seq<(Event, Cursor)>)
    ensures
        replay(Tracking::fresh(), inputs).dragging <==> exists|i: int| held_since(inputs, i),
{
    lemma_dragging_iff_held(Tracking::fresh(), inputs);
}

} // verus!
