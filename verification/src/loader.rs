//! Normalization of the different data-source shapes.
//!
//! A data source may serve arbitrary ranges, exact ranges, in-memory slices or
//! fixed-size pages. Everything downstream works with one shape: a requested
//! index range goes in, a [`LoadedItems`] with the actually served range comes
//! out. This module holds the range arithmetic of that normalization — chunk
//! alignment, page lifting and count normalization — together with the loader
//! traits that synchronous sources implement directly.

use std::ops::Range;
use vstd::prelude::*;

verus! {

/// A loader's reply: the items served, and the range they cover.
///
/// The served range may differ from the requested one, for example when a
/// paginated source aligns to page boundaries, or when it returns fewer items
/// than asked for because the data ended.
pub struct LoadedItems<T> {
    /// The loaded items.
    pub items: Vec<T>,
    /// The range of indices the items cover: `items[i]` belongs at index
    /// `range.start + i`.
    pub range: Range<usize>,
}

/// How a paginated source reports its total: in items or in whole pages.
pub enum PaginatedCount {
    /// The source reports a number of pages.
    Pages(usize),
    /// The source reports a number of items.
    Items(usize),
}

/// The start of the chunk that contains `start`.
pub open spec fn spec_align_start(start: int, chunk: int) -> int {
    (start / chunk) * chunk
}

/// The end of the chunk that contains `end - 1`: `end` rounded up to the next
/// multiple of `chunk`.
pub open spec fn spec_align_end(end: int, chunk: int) -> int {
    ((end + chunk - 1) / chunk) * chunk
}

/// Round `range` outward to whole chunks of `chunk_size` items, so that a
/// chunked source is only ever asked for complete chunks. Without a chunk
/// size the range passes through unchanged.
pub fn align_range(range: Range<usize>, chunk_size: Option<usize>) -> (r: Range<usize>)
    requires
        chunk_size matches Some(c) ==> 1 <= c && range.end + c - 1 <= usize::MAX,
    ensures
        match chunk_size {
            Some(c) => {
                &&& r.start == spec_align_start(range.start as int, c as int)
                &&& r.end == spec_align_end(range.end as int, c as int)
            },
            None => r == range,
        },
{
    match chunk_size {
        Some(chunk) => {
            proof {
                assert((range.start as int / chunk as int) * (chunk as int) <= range.start as int)
                    by (nonlinear_arith)
                    requires 1 <= chunk as int;
                assert(((range.end as int + chunk as int - 1) / chunk as int) * (chunk as int)
                    <= range.end as int + chunk as int - 1) by (nonlinear_arith)
                    requires 1 <= chunk as int;
            }
            let chunk_start = (range.start / chunk) * chunk;
            let chunk_end = ((range.end + (chunk - 1)) / chunk) * chunk;
            chunk_start..chunk_end
        },
        None => range,
    }
}

/// The page index whose chunk begins at `page_start`.
pub fn page_index_of(page_start: usize, page_item_count: usize) -> (r: usize)
    requires
        1 <= page_item_count,
        page_start as int % page_item_count as int == 0,
    ensures
        r == page_start as int / page_item_count as int,
        r * page_item_count == page_start,
{
    proof {
        assert((page_start as int / page_item_count as int) * (page_item_count as int)
            == page_start as int) by (nonlinear_arith)
            requires
                1 <= page_item_count,
                page_start as int % page_item_count as int == 0;
    }
    page_start / page_item_count
}

/// Lift an exact-range reply: the source served precisely the requested range.
pub fn lift_exact<T>(items: Vec<T>, range: Range<usize>) -> (r: LoadedItems<T>)
    ensures
        r.items == items,
        r.range == range,
{
    LoadedItems { items, range }
}

/// Lift one page of a paginated reply. The served range starts at the page's
/// first index and covers exactly the items that came back, so a short page
/// marks where the data ends.
pub fn lift_paginated<T>(items: Vec<T>, page_start: usize) -> (r: LoadedItems<T>)
    requires
        page_start + items@.len() <= usize::MAX,
    ensures
        r.items == items,
        r.range.start == page_start,
        r.range.end == page_start + items@.len(),
{
    let end = page_start + items.len();
    LoadedItems { items, range: page_start..end }
}

/// A data source that already holds its items in memory, like a `Vec`. No
/// failures and no waiting: loading is a plain slice, counting is a plain
/// length.
pub trait MemoryLoader {
    /// The type of items that will be loaded.
    type Item;

    /// The type of the query data used to load items, for example to filter
    /// or sort them.
    type Query;

    /// The items of the given range, respecting the query.
    fn load_items(&self, range: Range<usize>, query: &Self::Query) -> Vec<Self::Item>;

    /// The total number of items of this data source with respect to the
    /// query.
    fn item_count(&self, query: &Self::Query) -> usize;
}

/// A data source that serves exactly the range of items asked for, and may
/// fail.
pub trait ExactLoader {
    /// The type of items that will be loaded.
    type Item;

    /// The type of the query data used to load items.
    type Query;

    /// The type of errors that can occur during loading.
    type Error;

    /// The items of exactly the given range, respecting the query. Fewer
    /// items than asked for mean the data ended.
    fn load_items(&self, range: Range<usize>, query: &Self::Query) -> Result<
        Vec<Self::Item>,
        Self::Error,
    >;

    /// The total number of items with respect to the query, or `Ok(None)` if
    /// unknown.
    fn item_count(&self, query: &Self::Query) -> Result<Option<usize>, Self::Error>;
}

/// A data source that serves fixed-size pages by page index.
pub trait PaginatedLoader {
    /// The type of items that will be loaded.
    type Item;

    /// The type of the query data used to load items.
    type Query;

    /// The type of errors that can occur during loading.
    type Error;

    /// How many items each page holds. Every call returns the same positive
    /// value.
    fn page_item_count(&self) -> (r: usize)
        ensures
            1 <= r,
    ;

    /// All items of the page with the given index (counting from 0),
    /// respecting the query. Fewer than [`PaginatedLoader::page_item_count`]
    /// items mean the data ended.
    fn load_page(&self, page_index: usize, query: &Self::Query) -> Result<
        Vec<Self::Item>,
        Self::Error,
    >;

    /// The total size of this data source with respect to the query, in
    /// items or pages, or `Ok(None)` if unknown.
    fn count(&self, query: &Self::Query) -> Result<Option<PaginatedCount>, Self::Error>;
}

/// The fully general shape: a loader that decides itself which range it
/// serves for a request, and may ask for chunk-aligned requests.
pub trait Loader {
    /// The type of items that will be loaded.
    type Item;

    /// The type of the query data used to load items.
    type Query;

    /// The type of errors that can occur during loading.
    type Error;

    /// When `Some(c)`, requests are rounded outward to whole chunks of `c`
    /// items before [`Loader::load_items`] is called.
    fn chunk_size(&self) -> Option<usize>;

    /// The items for the given range, respecting the query, together with
    /// the range they actually cover.
    fn load_items(&self, range: Range<usize>, query: &Self::Query) -> Result<
        LoadedItems<Self::Item>,
        Self::Error,
    >;

    /// The total number of items with respect to the query, or `Ok(None)` if
    /// unknown.
    fn item_count(&self, query: &Self::Query) -> Result<Option<usize>, Self::Error>;
}

/// Serve a range from an in-memory source. The reply covers the requested
/// range, whatever the source handed back.
pub fn run_memory_loader<L: MemoryLoader>(
    loader: &L,
    range: Range<usize>,
    query: &L::Query,
) -> (r: LoadedItems<L::Item>)
    ensures
        r.range == range,
{
    let items = loader.load_items(range.start..range.end, query);
    LoadedItems { items, range }
}

/// Count an in-memory source: always known, never failing.
pub fn run_memory_count<L: MemoryLoader>(loader: &L, query: &L::Query) -> (r: Result<
    Option<usize>,
    (),
>)
    ensures
        r matches Ok(c) && c is Some,
{
    Ok(Some(loader.item_count(query)))
}

/// Serve a range from an exact source: a successful reply covers exactly the
/// requested range.
pub fn run_exact_loader<L: ExactLoader>(
    loader: &L,
    range: Range<usize>,
    query: &L::Query,
) -> (r: Result<LoadedItems<L::Item>, L::Error>)
    ensures
        r matches Ok(li) ==> li.range == range,
{
    match loader.load_items(range.start..range.end, query) {
        Ok(items) => Ok(lift_exact(items, range.start..range.end)),
        Err(e) => Err(e),
    }
}

/// Serve the page beginning at `page_start` from a paginated source. A
/// successful reply starts at `page_start` and covers exactly the items that
/// came back; a reply so long that its end would not be an index is cut
/// there.
pub fn run_paginated_loader<L: PaginatedLoader>(
    loader: &L,
    page_start: usize,
    query: &L::Query,
) -> (r: Result<LoadedItems<L::Item>, L::Error>)
    ensures
        r matches Ok(li) ==> li.range.start == page_start && li.range.end == page_start
            + li.items@.len(),
{
    let page_item_count = loader.page_item_count();
    let page_index = page_start / page_item_count;
    match loader.load_page(page_index, query) {
        Ok(items) => {
            let mut items = items;
            if items.len() > usize::MAX - page_start {
                items.truncate(usize::MAX - page_start);
            }
            Ok(lift_paginated(items, page_start))
        },
        Err(e) => Err(e),
    }
}

/// Count a paginated source, normalized to a number of items. A total in
/// pages so large that the items would not fit an index is reported as the
/// largest representable count.
pub fn run_paginated_count<L: PaginatedLoader>(loader: &L, query: &L::Query) -> (r: Result<
    Option<usize>,
    L::Error,
>) {
    let page_item_count = loader.page_item_count();
    match loader.count(query) {
        Ok(None) => Ok(None),
        Ok(Some(PaginatedCount::Items(item_count))) => Ok(Some(item_count)),
        Ok(Some(PaginatedCount::Pages(page_count))) => {
            if page_count <= usize::MAX / page_item_count {
                proof {
                    assert(page_count * page_item_count <= usize::MAX) by (nonlinear_arith)
                        requires
                            1 <= page_item_count as int,
                            0 <= page_count as int,
                            page_count as int <= usize::MAX as int / page_item_count as int,
                    ;
                }
                Ok(normalize_paginated_count(
                    Some(PaginatedCount::Pages(page_count)),
                    page_item_count,
                ))
            } else {
                Ok(Some(usize::MAX))
            }
        },
        Err(e) => Err(e),
    }
}

/// The shape-independent loader that the machinery works against. The four
/// user-facing loader shapes all normalize to it, each through its own
/// marker type.
pub trait InternalLoader<M> {
    /// The type of items that will be loaded.
    type Item;

    /// The type of the query data used to load items.
    type Query;

    /// The type of errors that can occur during loading.
    type Error;

    /// When `Some(c)`, the data is loaded in chunks of `c` items.
    fn chunk_size(&self) -> Option<usize>;

    /// Load the items of the given range. Call [`load_aligned`] instead,
    /// which respects the chunk size.
    fn load_items_inner(&self, range: Range<usize>, query: &Self::Query) -> Result<
        LoadedItems<Self::Item>,
        Self::Error,
    >;

    /// The total number of items with respect to the query, or `Ok(None)` if
    /// unknown.
    fn item_count(&self, query: &Self::Query) -> Result<Option<usize>, Self::Error>;
}

/// Load items through any normalized loader, rounding the range outward to
/// the loader's chunk size first. A chunk size of zero, or an alignment that
/// would round past the largest index, is ignored.
pub fn load_aligned<M, L: InternalLoader<M>>(
    loader: &L,
    range: Range<usize>,
    query: &L::Query,
) -> Result<LoadedItems<L::Item>, L::Error> {
    let corrected = match loader.chunk_size() {
        Some(c) => {
            if 1 <= c && range.end <= usize::MAX - (c - 1) {
                align_range(range.start..range.end, Some(c))
            } else {
                range
            }
        },
        None => range,
    };
    loader.load_items_inner(corrected, query)
}

/// Marker for lifting a [`Loader`] to the internal shape.
pub struct LoaderMarker;

impl<L: Loader> InternalLoader<LoaderMarker> for L {
    type Item = L::Item;

    type Query = L::Query;

    type Error = L::Error;

    fn chunk_size(&self) -> Option<usize> {
        Loader::chunk_size(self)
    }

    fn load_items_inner(&self, range: Range<usize>, query: &Self::Query) -> Result<
        LoadedItems<Self::Item>,
        Self::Error,
    > {
        Loader::load_items(self, range, query)
    }

    fn item_count(&self, query: &Self::Query) -> Result<Option<usize>, Self::Error> {
        Loader::item_count(self, query)
    }
}

/// Marker for lifting an [`ExactLoader`] to the internal shape.
pub struct ExactLoaderMarker;

impl<L: ExactLoader> InternalLoader<ExactLoaderMarker> for L {
    type Item = L::Item;

    type Query = L::Query;

    type Error = L::Error;

    fn chunk_size(&self) -> Option<usize> {
        None
    }

    fn load_items_inner(&self, range: Range<usize>, query: &Self::Query) -> Result<
        LoadedItems<Self::Item>,
        Self::Error,
    > {
        run_exact_loader(self, range, query)
    }

    fn item_count(&self, query: &Self::Query) -> Result<Option<usize>, Self::Error> {
        ExactLoader::item_count(self, query)
    }
}

/// Marker for lifting a [`MemoryLoader`] to the internal shape.
pub struct MemoryLoaderMarker;

impl<L: MemoryLoader> InternalLoader<MemoryLoaderMarker> for L {
    type Item = L::Item;

    type Query = L::Query;

    type Error = ();

    fn chunk_size(&self) -> Option<usize> {
        None
    }

    fn load_items_inner(&self, range: Range<usize>, query: &Self::Query) -> Result<
        LoadedItems<Self::Item>,
        Self::Error,
    > {
        Ok(run_memory_loader(self, range, query))
    }

    fn item_count(&self, query: &Self::Query) -> Result<Option<usize>, Self::Error> {
        run_memory_count(self, query)
    }
}

/// Marker for lifting a [`PaginatedLoader`] to the internal shape.
pub struct PaginatedLoaderMarker;

impl<L: PaginatedLoader> InternalLoader<PaginatedLoaderMarker> for L {
    type Item = L::Item;

    type Query = L::Query;

    type Error = L::Error;

    fn chunk_size(&self) -> Option<usize> {
        Some(self.page_item_count())
    }

    fn load_items_inner(&self, range: Range<usize>, query: &Self::Query) -> Result<
        LoadedItems<Self::Item>,
        Self::Error,
    > {
        run_paginated_loader(self, range.start, query)
    }

    fn item_count(&self, query: &Self::Query) -> Result<Option<usize>, Self::Error> {
        run_paginated_count(self, query)
    }
}

/// Normalize a paginated source's total to a number of items.
pub fn normalize_paginated_count(count: Option<PaginatedCount>, page_item_count: usize) -> (r:
    Option<usize>)
    requires
        count matches Some(PaginatedCount::Pages(p)) ==> p * page_item_count <= usize::MAX,
    ensures
        match count {
            None => r is None,
            Some(PaginatedCount::Items(n)) => r == Some(n),
            Some(PaginatedCount::Pages(p)) => r == Some((p * page_item_count) as usize),
        },
{
    match count {
        None => None,
        Some(PaginatedCount::Items(item_count)) => Some(item_count),
        Some(PaginatedCount::Pages(page_count)) => Some(page_count * page_item_count),
    }
}

} // verus!
