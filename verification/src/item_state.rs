//! The per-index state of one cached slot.

use std::sync::Arc;
use vstd::prelude::*;

verus! {

/// Relies on `Arc::clone`: it yields a second handle to the same allocation,
/// so the pointed-to value is unchanged.
#[verifier::external_body]
pub(crate) fn clone_arc<T>(a: &Arc<T>) -> (r: Arc<T>)
    ensures
        r == *a,
{
    Arc::clone(a)
}

/// The state of a single slot of the cache.
///
/// Every index of the cache holds exactly one of these. Any state may be
/// overwritten by any other; the loading machinery only ever performs
/// placeholder-to-loading, loading-to-loaded, loading-to-error and
/// anything-to-placeholder transitions, while the local mutation API writes
/// `Loaded` directly.
pub enum ItemState<T> {
    /// The index is known (or speculated) to exist but no request covers it.
    Placeholder,
    /// A request covering this index is in flight.
    Loading,
    /// The item arrived. The payload is shared, not copied, between readers.
    Loaded(Arc<T>),
    /// The last request covering this index failed, with a diagnostic.
    Error(String),
}

impl<T> Clone for ItemState<T> {
    /// Cloning shares a `Loaded` payload instead of deep-copying it.
    fn clone(&self) -> (r: Self)
        ensures
            r == *self,
    {
        match self {
            ItemState::Placeholder => ItemState::Placeholder,
            ItemState::Loading => ItemState::Loading,
            ItemState::Loaded(item) => ItemState::Loaded(clone_arc(item)),
            ItemState::Error(error) => ItemState::Error(error.clone()),
        }
    }
}

impl<T> ItemState<T> {
    /// True for the one state that still has to be fetched.
    pub fn is_placeholder(&self) -> (r: bool)
        ensures
            r == (*self is Placeholder),
    {
        matches!(self, ItemState::Placeholder)
    }

    /// True while a request covering this index is in flight.
    pub fn is_loading(&self) -> (r: bool)
        ensures
            r == (*self is Loading),
    {
        matches!(self, ItemState::Loading)
    }

    /// The loaded payload, if this slot finished loading.
    pub fn loaded(&self) -> (r: Option<&T>)
        ensures
            match r {
                Some(v) => *self matches ItemState::Loaded(w) && v == w,
                None => !(*self is Loaded),
            },
    {
        match self {
            ItemState::Loaded(item) => Some(&**item),
            _ => None,
        }
    }

    /// The diagnostic message, if the last request for this slot failed.
    pub fn error(&self) -> (r: Option<&String>)
        ensures
            match r {
                Some(m) => *self matches ItemState::Error(e) && m == e,
                None => !(*self is Error),
            },
    {
        match self {
            ItemState::Error(error) => Some(error),
            _ => None,
        }
    }
}

} // verus!
