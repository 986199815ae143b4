//! The on-demand load driver.
//!
//! A small state machine around the cache: a generation counter, the cache
//! itself, and the last count result. The host's event loop drives it:
//!
//! * when the query changes or a reload is triggered, call
//!   [`LoadDriver::invalidate`];
//! * to load items, ask [`LoadDriver::begin_items_load`] what is missing,
//!   perform the fetch, and hand the outcome to
//!   [`LoadDriver::finish_items_load`] together with the captured generation;
//! * likewise [`LoadDriver::begin_count_load`] /
//!   [`LoadDriver::finish_count_load`] for the total count.
//!
//! Loads may overlap and resolve in any order. The generation counter is the
//! only staleness mechanism: a completion whose captured generation no longer
//! matches leaves the driver untouched, so after rapid query changes only the
//! final query's responses ever become visible.

use std::ops::Range;
use vstd::prelude::*;

use crate::cache::{Cache, clamp_by_count, grown, spec_missing_range};
use crate::item_state::ItemState;
use crate::loader::LoadedItems;

verus! {

/// The driver's state. The cache inside is reachable through
/// [`LoadDriver::cache`] and [`LoadDriver::cache_mut`]; the driver itself
/// only mutates it in reaction to the events below.
pub struct LoadDriver<T> {
    generation: u64,
    cache: Cache<T>,
    count_result: Result<Option<usize>, String>,
}

impl<T> LoadDriver<T> {
    /// The current generation.
    pub closed spec fn current_generation(self) -> u64 {
        self.generation
    }

    /// The cache, as a value.
    pub closed spec fn cache_state(self) -> Cache<T> {
        self.cache
    }

    /// The most recent count outcome.
    pub closed spec fn count_state(self) -> Result<Option<usize>, String> {
        self.count_result
    }

    /// A fresh driver: generation zero, empty cache, count still unknown.
    pub fn new() -> (r: Self)
        ensures
            r.current_generation() == 0,
            r.cache_state().entries() == Seq::<ItemState<T>>::empty(),
            r.cache_state().count() is None,
            r.cache_state().loading_is_active(),
            r.count_state() == Ok::<Option<usize>, String>(None),
    {
        LoadDriver { generation: 0, cache: Cache::new(), count_result: Ok(None) }
    }

    /// The current generation, for inspection.
    pub fn generation(&self) -> (r: u64)
        ensures
            r == self.current_generation(),
    {
        self.generation
    }

    /// Read access to the cache.
    pub fn cache(&self) -> (r: &Cache<T>)
        ensures
            *r == self.cache_state(),
    {
        &self.cache
    }

    /// Write access to the cache, for the local mutation API.
    ///
    /// Mutations through this handle do not touch the generation, so they
    /// never invalidate in-flight loads.
    pub fn cache_mut(&mut self) -> (r: &mut Cache<T>)
        ensures
            *r == old(self).cache_state(),
            final(self).cache_state() == *final(r),
            final(self).current_generation() == old(self).current_generation(),
            final(self).count_state() == old(self).count_state(),
    {
        &mut self.cache
    }

    /// The most recent count outcome, for inspection.
    pub fn count_result(&self) -> (r: &Result<Option<usize>, String>)
        ensures
            *r == self.count_state(),
    {
        &self.count_result
    }

    /// The query changed or a reload was triggered: advance the generation so
    /// that every in-flight load becomes stale, and reset every cached slot
    /// to placeholder. This is the only path to invalidation.
    pub fn invalidate(&mut self)
        ensures
            final(self).current_generation() != old(self).current_generation(),
            final(self).cache_state().count() is None,
            final(self).cache_state().entries().len() == old(self).cache_state().entries().len(),
            forall|i: int|
                0 <= i < final(self).cache_state().entries().len() ==> final(self).cache_state().entries()[i] is Placeholder,
            final(self).cache_state().loading_is_active() == old(self).cache_state().loading_is_active(),
            final(self).count_state() == old(self).count_state(),
    {
        let before = self.generation;
        self.generation = self.generation.wrapping_add(1);
        let ghost after = self.generation;
        proof {
            assert(after != before) by (bit_vector)
                requires
                    after == before.wrapping_add(1),
            ;
        }
        self.cache.clear();
    }

    /// Capture the generation before starting a count load. Hand the captured
    /// value back to [`LoadDriver::finish_count_load`] with the outcome.
    pub fn begin_count_load(&self) -> (r: u64)
        ensures
            r == self.current_generation(),
    {
        self.generation
    }

    /// A count load finished. If the captured generation is stale the outcome
    /// is dropped and nothing changes. Otherwise the cache's total becomes
    /// the counted value (or `None` on failure) and the outcome is published.
    pub fn finish_count_load(&mut self, captured: u64, result: Result<Option<usize>, String>)
        ensures
            captured != old(self).current_generation() ==> *final(self) == *old(self),
            captured == old(self).current_generation() ==> {
                &&& final(self).current_generation() == old(self).current_generation()
                &&& final(self).cache_state().entries() == old(self).cache_state().entries()
                &&& final(self).cache_state().loading_is_active() == old(self).cache_state().loading_is_active()
                &&& final(self).cache_state().count() == match result {
                    Ok(c) => c,
                    Err(_) => None::<usize>,
                }
                &&& final(self).count_state() == result
            },
    {
        if captured != self.generation {
            return;
        }
        let count = match &result {
            Ok(c) => *c,
            Err(_) => None,
        };
        self.cache.set_item_count(count);
        self.count_result = result;
    }

    /// Decide whether an items load has to start for `range_to_load`.
    ///
    /// Returns `None`, changing nothing, when reactive loading is paused or
    /// nothing in the window is missing. Otherwise the missing sub-range is
    /// marked as loading and returned together with the captured generation;
    /// the host fetches exactly that range and reports back to
    /// [`LoadDriver::finish_items_load`].
    pub fn begin_items_load(&mut self, range_to_load: Range<usize>) -> (r: Option<
        (Range<usize>, u64),
    >)
        ensures
            match r {
                None => {
                    &&& *final(self) == *old(self)
                    &&& !old(self).cache_state().loading_is_active() || spec_missing_range(
                        old(self).cache_state().entries(),
                        old(self).cache_state().count(),
                        range_to_load.start as int,
                        range_to_load.end as int,
                    ) is None
                },
                Some((missing, captured)) => {
                    &&& old(self).cache_state().loading_is_active()
                    &&& captured == old(self).current_generation()
                    &&& final(self).current_generation() == old(self).current_generation()
                    &&& spec_missing_range(
                        old(self).cache_state().entries(),
                        old(self).cache_state().count(),
                        range_to_load.start as int,
                        range_to_load.end as int,
                    ) == Some((missing.start as int, missing.end as int))
                    &&& final(self).cache_state().count() == old(self).cache_state().count()
                    &&& final(self).cache_state().loading_is_active()
                    &&& final(self).cache_state().entries().len() == grown(
                        old(self).cache_state().entries(),
                        missing.end as int,
                    ).len()
                    &&& forall|i: int|
                        0 <= i < final(self).cache_state().entries().len() ==> final(self).cache_state().entries()[i] == (if missing.start <= i < missing.end {
                            ItemState::<T>::Loading
                        } else {
                            grown(old(self).cache_state().entries(), missing.end as int)[i]
                        })
                    &&& final(self).count_state() == old(self).count_state()
                },
            },
    {
        if !self.cache.is_reactive_loading_active() {
            return None;
        }
        let missing = self.cache.missing_range(range_to_load);
        match missing {
            None => None,
            Some(missing) => {
                self.cache.write_loading(missing.start..missing.end);
                Some((missing, self.generation))
            },
        }
    }

    /// An items load finished. If the captured generation is stale the
    /// outcome is dropped and nothing changes — neither the cache nor the
    /// total count. Otherwise the outcome is written to the cache over the
    /// requested range; a successful reply that ends short of the requested
    /// end signals the end of the data, and the total count becomes the
    /// reply's end.
    pub fn finish_items_load(
        &mut self,
        captured: u64,
        requested: Range<usize>,
        result: Result<LoadedItems<T>, String>,
    )
        ensures
            captured != old(self).current_generation() ==> *final(self) == *old(self),
            captured == old(self).current_generation() ==> {
                &&& final(self).current_generation() == old(self).current_generation()
                &&& final(self).cache_state().loading_is_active() == old(self).cache_state().loading_is_active()
                &&& match result {
                    Ok(loaded) => {
                        let base = grown(
                            old(self).cache_state().entries(),
                            loaded.range.end as int,
                        );
                        let short = loaded.range.end < requested.end;
                        &&& final(self).cache_state().entries().len() == base.len()
                        &&& forall|i: int|
                            #![trigger final(self).cache_state().entries()[i]]
                            0 <= i < base.len() ==> if loaded.range.start <= i
                                < loaded.range.start + loaded.items@.len() {
                                final(self).cache_state().entries()[i] matches ItemState::Loaded(v)
                                    && v == loaded.items@[i - loaded.range.start]
                            } else {
                                final(self).cache_state().entries()[i] == base[i]
                            }
                        &&& final(self).cache_state().count() == (if short {
                            Some(loaded.range.end)
                        } else {
                            old(self).cache_state().count()
                        })
                        &&& final(self).count_state() == (if short {
                            Ok::<Option<usize>, String>(Some(loaded.range.end))
                        } else {
                            old(self).count_state()
                        })
                    },
                    Err(message) => {
                        &&& final(self).cache_state().entries().len() == old(self).cache_state().entries().len()
                        &&& forall|i: int|
                            #![trigger final(self).cache_state().entries()[i]]
                            0 <= i < old(self).cache_state().entries().len() ==> if requested.start
                                <= i < requested.end {
                                final(self).cache_state().entries()[i] == ItemState::<T>::Error(
                                    message,
                                )
                            } else {
                                final(self).cache_state().entries()[i] == old(self).cache_state().entries()[i]
                            }
                        &&& final(self).cache_state().count() == old(self).cache_state().count()
                        &&& final(self).count_state() == old(self).count_state()
                    },
                }
            },
    {
        if captured != self.generation {
            return;
        }
        if let Ok(loaded) = &result {
            if loaded.range.end < requested.end {
                self.cache.set_item_count(Some(loaded.range.end));
                self.count_result = Ok(Some(loaded.range.end));
            }
        }
        self.cache.write_loaded(result, requested);
    }

    /// The window the interface should render: the display range, clamped at
    /// its end by the total count when one is known. The cache grows to cover
    /// the unclamped display range, so every rendered index has a slot.
    pub fn display_window(&mut self, range_to_display: Range<usize>) -> (r: Range<usize>)
        ensures
            r.start == range_to_display.start,
            r.end == clamp_by_count(
                range_to_display.end as int,
                old(self).cache_state().count(),
            ),
            final(self).current_generation() == old(self).current_generation(),
            final(self).count_state() == old(self).count_state(),
            final(self).cache_state().count() == old(self).cache_state().count(),
            final(self).cache_state().loading_is_active() == old(self).cache_state().loading_is_active(),
            final(self).cache_state().entries() == grown(
                old(self).cache_state().entries(),
                range_to_display.end as int,
            ),
    {
        self.cache.grow(range_to_display.end);
        let end = match self.cache.item_count() {
            Some(c) => if c < range_to_display.end {
                c
            } else {
                range_to_display.end
            },
            None => range_to_display.end,
        };
        range_to_display.start..end
    }
}

} // verus!
