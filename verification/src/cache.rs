//! The sparse item cache.
//!
//! An ordered vector of [`ItemState`] slots plus an optional total count. The
//! cache answers which contiguous part of a window still has to be fetched,
//! records in-flight and finished loads, and offers a local mutation API that
//! adjusts the count without triggering a reload.

use std::ops::Range;
use std::sync::Arc;
use vstd::prelude::*;

use crate::item_state::ItemState;
use crate::loader::LoadedItems;

verus! {

/// `s` extended with placeholders up to length `n` (unchanged if already long
/// enough).
pub open spec fn grown<T>(s: Seq<ItemState<T>>, n: int) -> Seq<ItemState<T>> {
    if n <= s.len() {
        s
    } else {
        s + Seq::new((n - s.len()) as nat, |i: int| ItemState::Placeholder)
    }
}

/// The first index in `[lo, hi)` holding a placeholder, or `hi` if there is
/// none.
pub open spec fn first_placeholder_from<T>(s: Seq<ItemState<T>>, lo: int, hi: int) -> int
    decreases hi - lo,
{
    if hi <= lo {
        hi
    } else if s[lo] is Placeholder {
        lo
    } else {
        first_placeholder_from(s, lo + 1, hi)
    }
}

/// `end` clamped by the total count, when one is known.
pub open spec fn clamp_by_count(end: int, count: Option<usize>) -> int {
    match count {
        Some(c) => if c < end { c as int } else { end },
        None => end,
    }
}

/// What [`Cache::missing_range`] answers, as a function of the cache model: the
/// minimal contiguous sub-range of `[start, end)` that still has to be
/// fetched, or `None` when nothing in the window is missing.
pub open spec fn spec_missing_range<T>(
    s: Seq<ItemState<T>>,
    count: Option<usize>,
    start: int,
    end: int,
) -> Option<(int, int)> {
    if end <= start {
        None
    } else if start >= s.len() {
        Some((start, end))
    } else {
        let watched_end = if end <= s.len() { end } else { s.len() as int };
        let lo = first_placeholder_from(s, start, watched_end);
        let hi = clamp_by_count(end, count);
        if lo < hi {
            Some((lo, hi))
        } else {
            None
        }
    }
}

/// Basic shape of [`first_placeholder_from`]: the answer lies between `lo`
/// and `hi`, everything before it is not a placeholder, and when it is below
/// `hi` it points at a placeholder.
pub proof fn lemma_first_placeholder_from<T>(s: Seq<ItemState<T>>, lo: int, hi: int)
    requires
        lo <= hi,
    ensures
        lo <= first_placeholder_from(s, lo, hi) <= hi,
        forall|i: int|
            lo <= i < first_placeholder_from(s, lo, hi) ==> !(s[i] is Placeholder),
        first_placeholder_from(s, lo, hi) < hi ==> s[first_placeholder_from(s, lo, hi)]
            is Placeholder,
    decreases hi - lo,
{
    if lo < hi && !(s[lo] is Placeholder) {
        lemma_first_placeholder_from(s, lo + 1, hi);
    }
}

/// [`first_placeholder_from`] is minimal: no placeholder of `[lo, hi)` lies
/// before it.
pub proof fn lemma_first_placeholder_from_le<T>(s: Seq<ItemState<T>>, lo: int, hi: int, i: int)
    requires
        lo <= i < hi,
        s[i] is Placeholder,
    ensures
        first_placeholder_from(s, lo, hi) <= i,
    decreases i - lo,
{
    if lo < i && !(s[lo] is Placeholder) {
        lemma_first_placeholder_from_le(s, lo + 1, hi, i);
    }
}

/// The missing range is sound and minimal: when it exists it lies within the
/// window, is clamped by the known total unless the window starts beyond the
/// cache, opens at the window's first placeholder, and covers every
/// placeholder of the window that lies below the known total.
pub proof fn lemma_missing_range_sound<T>(
    s: Seq<ItemState<T>>,
    count: Option<usize>,
    start: int,
    end: int,
)
    requires
        spec_missing_range(s, count, start, end) matches Some(r),
    ensures
        spec_missing_range(s, count, start, end) matches Some(r) ==> {
            &&& start <= r.0 < r.1 <= end
            &&& start < s.len() ==> (count matches Some(c) ==> r.1 <= c)
            &&& start < s.len() && r.0 < s.len() ==> s[r.0] is Placeholder
            &&& forall|i: int| start <= i < r.0 && i < s.len() ==> !(s[i] is Placeholder)
            &&& forall|i: int|
                start <= i < end && 0 <= i < s.len() && s[i] is Placeholder && (
                count matches Some(c) ==> i < c) ==> r.0 <= i < r.1
        },
{
    if start < s.len() && end > start {
        let watched_end = if end <= s.len() {
            end
        } else {
            s.len() as int
        };
        lemma_first_placeholder_from(s, start, watched_end);
        let r = spec_missing_range(s, count, start, end).unwrap();
        assert forall|i: int|
            start <= i < end && 0 <= i < s.len() && s[i] is Placeholder && (
            count matches Some(c) ==> i < c) implies r.0 <= i < r.1 by {
            lemma_first_placeholder_from_le(s, start, watched_end, i);
        }
    }
}

/// When nothing is reported missing, every slot of the window that exists and
/// lies below the known total is indeed present (not a placeholder).
pub proof fn lemma_missing_range_none<T>(
    s: Seq<ItemState<T>>,
    count: Option<usize>,
    start: int,
    end: int,
)
    requires
        spec_missing_range(s, count, start, end) is None,
    ensures
        forall|i: int|
            start <= i < end && 0 <= i < s.len() && (count matches Some(c) ==> i < c) ==> !(s[i]
                is Placeholder),
{
    if end > start && start < s.len() {
        let watched_end = if end <= s.len() {
            end
        } else {
            s.len() as int
        };
        assert forall|i: int|
            start <= i < end && 0 <= i < s.len() && (count matches Some(c) ==> i < c) implies !(
        s[i] is Placeholder) by {
            if s[i] is Placeholder {
                lemma_first_placeholder_from(s, start, watched_end);
                lemma_first_placeholder_from_le(s, start, watched_end, i);
            }
        }
    }
}

/// Round trip: a successful load reply whose items exactly fill its served
/// range reads back as those items, and the served range then has nothing
/// missing, whatever the known total is.
///
/// `s_new` is the cache contents after the write, as
/// [`Cache::write_loaded`]'s contract describes them.
pub proof fn lemma_round_trip<T>(
    s_old: Seq<ItemState<T>>,
    s_new: Seq<ItemState<T>>,
    count: Option<usize>,
    items: Seq<T>,
    start: int,
    end: int,
)
    requires
        0 <= start <= end,
        items.len() == end - start,
        s_new.len() == grown(s_old, end).len(),
        forall|i: int|
            #![trigger s_new[i]]
            0 <= i < s_new.len() ==> if start <= i < start + items.len() {
                s_new[i] matches ItemState::Loaded(v) && v == items[i - start]
            } else {
                s_new[i] == grown(s_old, end)[i]
            },
    ensures
        forall|i: int|
            #![trigger s_new[i]]
            start <= i < end ==> (s_new[i] matches ItemState::Loaded(v) && v == items[i - start]),
        spec_missing_range(s_new, count, start, end) is None,
{
    if start < end {
        lemma_first_placeholder_from(s_new, start, end);
        if first_placeholder_from(s_new, start, end) < end {
            assert(s_new[first_placeholder_from(s_new, start, end)] is Placeholder);
        }
    }
}

/// A sparse cache of items: one [`ItemState`] per index in `[0, len)`, and the
/// total number of items once it is known. A `None` count means the total is
/// still unknown.
///
/// The `loading_active` flag pauses the reactive load machinery while the
/// local mutation API runs, so that a mutation does not trigger a refetch of
/// neighbouring placeholders.
pub struct Cache<T> {
    items: Vec<ItemState<T>>,
    item_count: Option<usize>,
    loading_active: bool,
}

impl<T> Cache<T> {
    /// The slots, as a sequence.
    pub closed spec fn entries(self) -> Seq<ItemState<T>> {
        self.items@
    }

    /// The total number of items, once known.
    pub closed spec fn count(self) -> Option<usize> {
        self.item_count
    }

    /// Whether changes to the cache may currently trigger loading.
    pub closed spec fn loading_is_active(self) -> bool {
        self.loading_active
    }

    /// Create an empty cache with unknown total and active loading.
    pub fn new() -> (r: Self)
        ensures
            r.entries() == Seq::<ItemState<T>>::empty(),
            r.count() is None,
            r.loading_is_active(),
    {
        Cache { items: Vec::new(), item_count: None, loading_active: true }
    }

    /// Number of slots currently held.
    pub fn len(&self) -> (r: usize)
        ensures
            r == self.entries().len(),
    {
        self.items.len()
    }

    /// True when the cache holds no slots.
    pub fn is_empty(&self) -> (r: bool)
        ensures
            r == (self.entries().len() == 0),
    {
        self.items.is_empty()
    }

    /// The total number of items, once known.
    pub fn item_count(&self) -> (r: Option<usize>)
        ensures
            r == self.count(),
    {
        self.item_count
    }

    /// Read access to the slots.
    pub fn items(&self) -> (r: &Vec<ItemState<T>>)
        ensures
            r@ == self.entries(),
    {
        &self.items
    }

    /// The state of one slot.
    pub fn get(&self, index: usize) -> (r: &ItemState<T>)
        requires
            index < self.entries().len(),
        ensures
            *r == self.entries()[index as int],
    {
        &self.items[index]
    }

    /// After this, changes to the cache do not trigger (re)loading.
    pub fn pause_reactive_loading(&mut self)
        ensures
            !final(self).loading_is_active(),
            final(self).entries() == old(self).entries(),
            final(self).count() == old(self).count(),
    {
        self.loading_active = false;
    }

    /// After this, changes to the cache trigger (re)loading again.
    pub fn resume_reactive_loading(&mut self)
        ensures
            final(self).loading_is_active(),
            final(self).entries() == old(self).entries(),
            final(self).count() == old(self).count(),
    {
        self.loading_active = true;
    }

    /// Whether changes to the cache may currently trigger loading.
    pub fn is_reactive_loading_active(&self) -> (r: bool)
        ensures
            r == self.loading_is_active(),
    {
        self.loading_active
    }

    /// Set the number of slots to exactly `len`, padding with placeholders or
    /// truncating. Only used during a full reset.
    pub fn resize(&mut self, len: usize)
        ensures
            final(self).count() == old(self).count(),
            final(self).loading_is_active() == old(self).loading_is_active(),
            final(self).entries().len() == len,
            final(self).entries() == if len <= old(self).entries().len() {
                old(self).entries().subrange(0, len as int)
            } else {
                grown(old(self).entries(), len as int)
            },
    {
        let ghost old_items = self.items@;
        self.items.resize(len, ItemState::Placeholder);
        proof {
            if len > old_items.len() {
                assert(self.items@ =~= grown(old_items, len as int));
            }
        }
    }

    /// Grow the cache to at least `len` slots, padding with placeholders.
    /// Never shrinks.
    pub fn grow(&mut self, len: usize)
        ensures
            final(self).count() == old(self).count(),
            final(self).loading_is_active() == old(self).loading_is_active(),
            final(self).entries() == grown(old(self).entries(), len as int),
    {
        if self.items.len() < len {
            self.resize(len);
        }
    }

    /// Set every slot back to placeholder and forget the total count. The
    /// number of slots is preserved.
    pub fn clear(&mut self)
        ensures
            final(self).loading_is_active() == old(self).loading_is_active(),
            final(self).count() is None,
            final(self).entries().len() == old(self).entries().len(),
            forall|i: int|
                0 <= i < final(self).entries().len() ==> final(self).entries()[i]
                    is Placeholder,
    {
        let n = self.items.len();
        let mut i: usize = 0;
        while i < n
            invariant
                i <= n,
                n == self.items@.len(),
                self.item_count == old(self).item_count,
                self.loading_active == old(self).loading_active,
                forall|j: int| 0 <= j < i ==> self.items@[j] is Placeholder,
            decreases n - i,
        {
            self.items[i] = ItemState::Placeholder;
            i += 1;
        }
        self.item_count = None;
    }

    /// Set the total count directly. Used by the load driver when a loader
    /// reports how many items exist.
    pub fn set_item_count(&mut self, count: Option<usize>)
        ensures
            final(self).count() == count,
            final(self).entries() == old(self).entries(),
            final(self).loading_is_active() == old(self).loading_is_active(),
    {
        self.item_count = count;
    }

    /// Mark every slot of `range` as loading, growing the cache to `range.end`
    /// first if needed.
    pub fn write_loading(&mut self, range: Range<usize>)
        ensures
            final(self).count() == old(self).count(),
            final(self).loading_is_active() == old(self).loading_is_active(),
            final(self).entries().len() == grown(
                old(self).entries(),
                range.end as int,
            ).len(),
            forall|i: int|
                0 <= i < final(self).entries().len() ==> final(self).entries()[i] == (
                if range.start <= i < range.end {
                    ItemState::<T>::Loading
                } else {
                    grown(old(self).entries(), range.end as int)[i]
                }),
    {
        if range.end > self.items.len() {
            self.resize(range.end);
        }
        let ghost base = grown(old(self).entries(), range.end as int);
        assert(self.items@ =~= base);
        let mut i = range.start;
        while i < range.end
            invariant
                range.start <= i,
                i <= range.end || i == range.start,
                range.end <= self.items@.len(),
                self.items@.len() == base.len(),
                self.item_count == old(self).item_count,
                self.loading_active == old(self).loading_active,
                forall|j: int|
                    0 <= j < self.items@.len() ==> self.items@[j] == (
                    if range.start <= j < i {
                        ItemState::<T>::Loading
                    } else {
                        base[j]
                    }),
            decreases range.end - i,
        {
            self.items[i] = ItemState::Loading;
            i += 1;
        }
    }

    /// The minimal contiguous sub-range of `range_to_load` that still has to
    /// be fetched, or `None` when nothing there is missing.
    ///
    /// Only placeholders count as missing: loading, loaded and failed slots
    /// all suppress a refetch, so a failed load is not retried until the
    /// query changes or a reload is triggered. The range is clamped by the
    /// total count when one is known, and widened to the window's end so that
    /// the not-yet-allocated tail is fetched too.
    pub fn missing_range(&self, range_to_load: Range<usize>) -> (r: Option<Range<usize>>)
        ensures
            match r {
                Some(rr) => spec_missing_range(
                    self.entries(),
                    self.count(),
                    range_to_load.start as int,
                    range_to_load.end as int,
                ) == Some((rr.start as int, rr.end as int)),
                None => spec_missing_range(
                    self.entries(),
                    self.count(),
                    range_to_load.start as int,
                    range_to_load.end as int,
                ) is None,
            },
    {
        if range_to_load.end <= range_to_load.start {
            return None;
        }
        if range_to_load.start >= self.items.len() {
            return Some(range_to_load);
        }
        let watched_end = if range_to_load.end <= self.items.len() {
            range_to_load.end
        } else {
            self.items.len()
        };
        let mut lo = range_to_load.start;
        while lo < watched_end && !self.items[lo].is_placeholder()
            invariant
                range_to_load.start <= lo <= watched_end,
                watched_end <= self.items@.len(),
                first_placeholder_from(
                    self.items@,
                    range_to_load.start as int,
                    watched_end as int,
                ) == first_placeholder_from(self.items@, lo as int, watched_end as int),
            decreases watched_end - lo,
        {
            lo += 1;
        }
        proof {
            assert(first_placeholder_from(self.items@, lo as int, watched_end as int)
                == lo);
        }
        let hi = match self.item_count {
            Some(c) => if c < range_to_load.end {
                c
            } else {
                range_to_load.end
            },
            None => range_to_load.end,
        };
        if lo < hi {
            Some(lo..hi)
        } else {
            None
        }
    }

    /// Replace the item at `index` with a freshly loaded value.
    ///
    /// A local mutation: it does not touch the total count and does not
    /// trigger a reload. The caller is responsible for keeping the data
    /// source consistent.
    pub fn update_item(&mut self, index: usize, new: T)
        requires
            index < old(self).entries().len(),
        ensures
            final(self).count() == old(self).count(),
            final(self).loading_is_active() == old(self).loading_is_active(),
            final(self).entries() == old(self).entries().update(
                index as int,
                final(self).entries()[index as int],
            ),
            final(self).entries()[index as int] matches ItemState::Loaded(v) && v == new,
    {
        self.items[index] = ItemState::Loaded(Arc::new(new));
    }

    /// Remove the slot at `index` and lower the total count if it is known.
    ///
    /// A local mutation: it does not trigger a reload. The caller is
    /// responsible for keeping the data source consistent.
    pub fn remove_item(&mut self, index: usize)
        requires
            index < old(self).entries().len(),
            old(self).count() matches Some(c) ==> 1 <= c,
        ensures
            final(self).loading_is_active() == old(self).loading_is_active(),
            final(self).entries() == old(self).entries().remove(index as int),
            final(self).count() == match old(self).count() {
                Some(c) => Some((c - 1) as usize),
                None => None::<usize>,
            },
    {
        self.items.remove(index);
        if let Some(len) = self.item_count {
            self.item_count = Some(len - 1);
        }
    }

    /// Insert a loaded item at `index` and raise the total count if it is
    /// known.
    ///
    /// A local mutation: it does not trigger a reload. The caller is
    /// responsible for keeping the data source consistent.
    pub fn insert_item(&mut self, index: usize, new: T)
        requires
            index <= old(self).entries().len(),
            old(self).count() matches Some(c) ==> c < usize::MAX,
        ensures
            final(self).loading_is_active() == old(self).loading_is_active(),
            final(self).entries().len() == old(self).entries().len() + 1,
            final(self).entries()[index as int] matches ItemState::Loaded(v) && v == new,
            forall|i: int|
                0 <= i < index ==> final(self).entries()[i] == old(self).entries()[i],
            forall|i: int|
                index < i < final(self).entries().len() ==> final(self).entries()[i] == old(self).entries()[i - 1],
            final(self).count() == match old(self).count() {
                Some(c) => Some((c + 1) as usize),
                None => None::<usize>,
            },
    {
        self.items.insert(index, ItemState::Loaded(Arc::new(new)));
        if let Some(len) = self.item_count {
            self.item_count = Some(len + 1);
        }
    }

    /// Record the outcome of a finished load.
    ///
    /// On success the cache grows to the served range's end and the served
    /// items are written as `Loaded`, item `i` at index `range.start + i`. On
    /// failure every slot of the requested range that actually exists is set
    /// to `Error` with the message; slots outside the requested range are
    /// untouched and the cache does not grow.
    pub fn write_loaded(
        &mut self,
        loading_result: Result<LoadedItems<T>, String>,
        requested_load_range: Range<usize>,
    )
        ensures
            final(self).count() == old(self).count(),
            final(self).loading_is_active() == old(self).loading_is_active(),
            match loading_result {
                Ok(loaded) => {
                    let base = grown(old(self).entries(), loaded.range.end as int);
                    &&& final(self).entries().len() == base.len()
                    &&& forall|i: int|
                        #![trigger final(self).entries()[i]]
                        0 <= i < base.len() ==> if loaded.range.start <= i < loaded.range.start
                            + loaded.items@.len() {
                            final(self).entries()[i] matches ItemState::Loaded(v) && v == loaded.items@[i
                                - loaded.range.start]
                        } else {
                            final(self).entries()[i] == base[i]
                        }
                },
                Err(message) => {
                    &&& final(self).entries().len() == old(self).entries().len()
                    &&& forall|i: int|
                        #![trigger final(self).entries()[i]]
                        0 <= i < old(self).entries().len() ==> if requested_load_range.start <= i
                            < requested_load_range.end {
                            final(self).entries()[i] == ItemState::<T>::Error(message)
                        } else {
                            final(self).entries()[i] == old(self).entries()[i]
                        }
                },
            },
    {
        match loading_result {
            Ok(loaded) => {
                let LoadedItems { items, range } = loaded;
                if range.end > self.items.len() {
                    self.resize(range.end);
                }
                let ghost base = grown(old(self).entries(), range.end as int);
                assert(self.items@ =~= base);
                let ghost all_items = items@;
                let mut items = items;
                // Items that would land beyond the cache are dropped, exactly
                // as many as fit are written.
                let limit = if range.start < self.items.len() {
                    let fitting = self.items.len() - range.start;
                    if items.len() < fitting {
                        items.len()
                    } else {
                        fitting
                    }
                } else {
                    0
                };
                while items.len() > limit
                    invariant
                        limit <= items@.len(),
                        items@.len() <= all_items.len(),
                        items@ == all_items.subrange(0, items@.len() as int),
                    decreases items@.len(),
                {
                    items.pop();
                    proof {
                        assert(items@ =~= all_items.subrange(0, items@.len() as int));
                    }
                }
                while items.len() > 0
                    invariant
                        items@.len() <= limit,
                        limit <= all_items.len(),
                        items@ == all_items.subrange(0, items@.len() as int),
                        range.start + limit <= usize::MAX,
                        limit > 0 ==> range.start + limit <= self.items@.len(),
                        base.len() == self.items@.len(),
                        limit <= all_items.len(),
                        range.start >= base.len() ==> limit == 0,
                        range.start < base.len() ==> (limit == all_items.len() || range.start
                            + limit == base.len()),
                        self.item_count == old(self).item_count,
                        self.loading_active == old(self).loading_active,
                        forall|j: int|
                            #![trigger self.items@[j]]
                            0 <= j < base.len() ==> if range.start + items@.len() <= j
                                < range.start + limit {
                                self.items@[j] matches ItemState::Loaded(v) && v == all_items[j
                                    - range.start]
                            } else {
                                self.items@[j] == base[j]
                            },
                    decreases items@.len(),
                {
                    // Move the item out of its vector: the payload is shared
                    // from here on, never copied.
                    let item = items.pop().unwrap();
                    proof {
                        assert(items@ =~= all_items.subrange(0, items@.len() as int));
                    }
                    let index = range.start + items.len();
                    self.items[index] = ItemState::Loaded(Arc::new(item));
                }
            },
            Err(message) => {
                let start = requested_load_range.start;
                let end = if requested_load_range.end < self.items.len() {
                    requested_load_range.end
                } else {
                    self.items.len()
                };
                let mut i = start;
                while i < end
                    invariant
                        start <= i,
                        i <= end || i == start,
                        end <= self.items@.len(),
                        self.items@.len() == old(self).entries().len(),
                        self.item_count == old(self).item_count,
                        self.loading_active == old(self).loading_active,
                        forall|j: int|
                            #![trigger self.items@[j]]
                            0 <= j < self.items@.len() ==> if start <= j < i {
                                self.items@[j] == ItemState::<T>::Error(message)
                            } else {
                                self.items@[j] == old(self).entries()[j]
                            },
                    decreases end - i,
                {
                    self.items[i] = ItemState::Error(message.clone());
                    i += 1;
                }
            },
        }
    }
}

} // verus!
