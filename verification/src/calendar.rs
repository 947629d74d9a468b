//! Assembly of a new calendar: the builder that gathers the collection
//! entry it will belong to, the path of its backing file, and its events.
//!
//! Creating the calendar itself writes a file and the record store, so it
//! lives with them; the builder only collects values, and is generic in
//! the store's entry handle type.

use vstd::prelude::*;

verus! {

/// What a new calendar is made from: the collection it will belong to,
/// the path of its backing file, and its events, in the order they were
/// added.
pub struct CalendarBuilder<E> {
    pub events: Vec<E>,
    pub collection: Option<E>,
    pub path: Option<Vec<char>>,
}

impl<E> CalendarBuilder<E> {
    /// An empty builder: no events, no collection, no path.
    pub fn new() -> (r: Self)
        ensures
            r.events@ == Seq::<E>::empty(),
            r.collection is None,
            r.path is None,
    {
        CalendarBuilder { events: Vec::new(), collection: None, path: None }
    }

    /// Sets the collection the calendar will belong to.
    pub fn in_collection(self, co: E) -> (r: Self)
        ensures
            r.events == self.events,
            r.collection == Some(co),
            r.path == self.path,
    {
        CalendarBuilder { collection: Some(co), ..self }
    }

    /// Sets the path of the calendar's backing file.
    pub fn at_path(self, p: Vec<char>) -> (r: Self)
        ensures
            r.events == self.events,
            r.collection == self.collection,
            r.path == Some(p),
    {
        CalendarBuilder { path: Some(p), ..self }
    }

    /// Adds one event to the calendar.
    pub fn with_event(self, ev: E) -> (r: Self)
        ensures
            r.events@ == self.events@.push(ev),
            r.collection == self.collection,
            r.path == self.path,
    {
        let CalendarBuilder { mut events, collection, path } = self;
        events.push(ev);
        CalendarBuilder { events, collection, path }
    }
}

} // verus!
