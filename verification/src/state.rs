//! What the widget remembers between events.

use vstd::prelude::*;
use iced::widget::canvas::{Cache, Cursor};

verus! {

/// The toolkit's pointer state: a position, or the fact that there is none.
/// Nothing here looks inside; the value is stored and handed back as it came.
#[verifier::external_type_specification]
#[verifier::external_body]
pub struct ExCursor(Cursor);

/// The toolkit's store for painted geometry. It is empty or holds the result
/// of one painting.
#[verifier::external_type_specification]
#[verifier::external_body]
pub struct ExCache(Cache);

/// Whether a geometry store holds nothing, so that the next painting is done
/// afresh. The toolkit fills a store while it paints; nothing in this library
/// does, so here a store changes only where it is cleared.
pub uninterp spec fn cache_is_empty(cache: Cache) -> bool;

/// `Cache::new` of the toolkit: the store it makes is empty.
#[verifier::external_body]
fn new_cache() -> (cache: Cache)
    ensures
        cache_is_empty(cache),
{
    Cache::new()
}

/// `Cache::clear` of the toolkit: whatever the store held, it is empty
/// afterwards.
#[verifier::external_body]
fn clear_cache(cache: &mut Cache)
    ensures
        cache_is_empty(*final(cache)),
{
    cache.clear()
}

/// The part of the widget's memory that events decide.
pub struct Tracking {
    /// Where the pointer was when the latest mouse event arrived, if one has.
    pub cursor: Option<Cursor>,
    /// Whether the left button is being held.
    pub dragging: bool,
}

impl Tracking {
    /// Before anything has happened: no pointer, no drag.
    pub open spec fn fresh() -> Tracking {
        Tracking { cursor: None, dragging: false }
    }
}

/// The widget's memory: the painted geometry, the pointer as the latest mouse
/// event found it, and whether a drag is under way.
#[derive(Debug)]
pub struct State {
    cache: Cache,
    cursor: Option<Cursor>,
    dragging: bool,
}

impl State {
    /// The pointer and the drag flag, as one value.
    pub closed spec fn tracking(&self) -> Tracking {
        Tracking { cursor: self.cursor, dragging: self.dragging }
    }

    /// The geometry store.
    pub closed spec fn geometry(&self) -> Cache {
        self.cache
    }

    /// Throws the painted geometry away, so that the next painting is done
    /// afresh. What the widget remembers of the pointer stays.
    pub fn request_redraw(&mut self)
        ensures
            cache_is_empty(final(self).geometry()),
            final(self).tracking() == old(self).tracking(),
    {
        clear_cache(&mut self.cache);
    }

    /// Records the pointer as a mouse event found it.
    pub(crate) fn set_cursor(&mut self, cursor: Cursor)
        ensures
            final(self).tracking() == (Tracking { cursor: Some(cursor), ..old(self).tracking() }),
            final(self).geometry() == old(self).geometry(),
    {
        self.cursor = Some(cursor);
    }

    /// Sets or clears the drag flag.
    pub(crate) fn set_dragging(&mut self, dragging: bool)
        ensures
            final(self).tracking() == (Tracking { dragging, ..old(self).tracking() }),
            final(self).geometry() == old(self).geometry(),
    {
        self.dragging = dragging;
    }

    /// Where the pointer was when the latest mouse event arrived.
    pub fn cursor(&self) -> (cursor: Option<Cursor>)
        ensures
            cursor == self.tracking().cursor,
    {
        self.cursor
    }

    /// Whether the left button is being held.
    pub fn dragging(&self) -> (dragging: bool)
        ensures
            dragging == self.tracking().dragging,
    {
        self.dragging
    }

    /// The geometry store, for the painter.
    pub fn cache(&self) -> (cache: &Cache)
        ensures
            *cache == self.geometry(),
    {
        &self.cache
    }
}

impl Default for State {
    /// A widget that has seen nothing: no pointer, no drag, nothing painted.
    fn default() -> (state: State)
        ensures
            state.tracking() == Tracking::fresh(),
            cache_is_empty(state.geometry()),
    {
        State { cache: new_cache(), cursor: None, dragging: false }
    }
}

} // verus!
