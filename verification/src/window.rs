//! The displayed window, row by row.
//!
//! The paginated list renders one slot per index of the display window:
//! a loading placeholder, an error message, or the loaded item. This module
//! derives that row-by-row decision from the cache, so the interface only
//! substitutes markup for each [`WindowSlot`].

use std::ops::Range;
use std::sync::Arc;
use vstd::prelude::*;

use crate::cache::Cache;
use crate::item_state::{clone_arc, ItemState};

verus! {

/// What the interface shows for one row of the display window.
pub enum WindowSlot<T> {
    /// The row is not available yet: nothing was requested, or a request is
    /// still in flight. Rendered as the loading slot.
    Pending,
    /// The last request covering the row failed, with its diagnostic.
    Failed(String),
    /// The row is loaded. The payload is shared with the cache, not copied.
    Ready(Arc<T>),
}

/// Whether `slot` is what the interface shows for a row in `state`.
pub open spec fn slot_shows<T>(slot: WindowSlot<T>, state: ItemState<T>) -> bool {
    match state {
        ItemState::Placeholder => slot is Pending,
        ItemState::Loading => slot is Pending,
        ItemState::Loaded(v) => slot matches WindowSlot::Ready(w) && w == v,
        ItemState::Error(e) => slot matches WindowSlot::Failed(m) && m == e,
    }
}

/// The slots to render for the rows of `range`: for each index, the decision
/// the cache's state dictates.
pub fn window_slots<T>(cache: &Cache<T>, range: Range<usize>) -> (r: Vec<WindowSlot<T>>)
    requires
        range.start <= range.end,
        range.end <= cache.entries().len(),
    ensures
        r@.len() == range.end - range.start,
        forall|i: int|
            0 <= i < r@.len() ==> slot_shows(r@[i], cache.entries()[range.start + i]),
{
    let mut slots: Vec<WindowSlot<T>> = Vec::new();
    let mut index = range.start;
    while index < range.end
        invariant
            range.start <= index <= range.end,
            range.end <= cache.entries().len(),
            slots@.len() == index - range.start,
            forall|i: int|
                0 <= i < slots@.len() ==> slot_shows(slots@[i], cache.entries()[range.start + i]),
        decreases range.end - index,
    {
        let slot = match cache.get(index) {
            ItemState::Placeholder => WindowSlot::Pending,
            ItemState::Loading => WindowSlot::Pending,
            ItemState::Loaded(item) => WindowSlot::Ready(clone_arc(item)),
            ItemState::Error(error) => WindowSlot::Failed(error.clone()),
        };
        slots.push(slot);
        index += 1;
    }
    slots
}

} // verus!
