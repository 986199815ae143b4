//! Pagination state and the page arithmetic of the paginated view.
//!
//! [`PaginationState`] is the shared state between page controls and the
//! paginated list; the free functions derive the index ranges to load and
//! display from the current page, and lift a counted total to a page count.

use vstd::prelude::*;
use vstd::string::StringExecFns;

use std::ops::Range;

verus! {

/// The number of pages needed for `item_count` items at `items_per_page` a
/// page: the quotient, rounded up.
pub open spec fn spec_page_count(item_count: int, items_per_page: int) -> int {
    (item_count + items_per_page - 1) / items_per_page
}

/// The state of pagination, shared between the controls and the display.
pub struct PaginationState {
    /// The current page number. Counting starts from 0.
    pub current_page: usize,
    /// The total number of pages, or `None` initially or if the count could
    /// not be determined.
    pub page_count: Option<usize>,
    /// The error message if the page count could not be determined.
    pub page_count_error: Option<String>,
    /// The reload nonce. Bumped by [`PaginationState::trigger_reload`]; the
    /// host watches it and treats a change like a query change. Only change
    /// it through that method.
    pub reload_trigger: usize,
}

impl PaginationState {
    /// Whether the current page is the last one. Unknown totals never report
    /// a last page.
    pub open spec fn spec_is_last_page(self) -> bool {
        match self.page_count {
            Some(pc) => self.current_page >= pc - 1,
            None => false,
        }
    }

    /// The initial state: first page, nothing counted yet.
    pub fn new() -> (r: Self)
        ensures
            r.current_page == 0,
            r.page_count is None,
            r.page_count_error is None,
    {
        PaginationState {
            current_page: 0,
            page_count: None,
            page_count_error: None,
            reload_trigger: 0,
        }
    }

    /// If possible, move to the next page.
    pub fn next(&mut self)
        requires
            old(self).current_page < usize::MAX,
        ensures
            final(self).current_page == if old(self).spec_is_last_page() {
                old(self).current_page as int
            } else {
                old(self).current_page + 1
            },
            final(self).page_count == old(self).page_count,
            final(self).page_count_error == old(self).page_count_error,
            final(self).reload_trigger == old(self).reload_trigger,
    {
        if !self.is_last_page() {
            self.current_page = self.current_page + 1;
        }
    }

    /// If possible, move to the previous page.
    pub fn prev(&mut self)
        ensures
            final(self).current_page == if old(self).current_page > 0 {
                old(self).current_page - 1
            } else {
                0int
            },
            final(self).page_count == old(self).page_count,
            final(self).page_count_error == old(self).page_count_error,
            final(self).reload_trigger == old(self).reload_trigger,
    {
        if self.current_page > 0 {
            self.current_page = self.current_page - 1;
        }
    }

    /// Whether the current page is the first one.
    pub fn is_first_page(&self) -> (r: bool)
        ensures
            r == (self.current_page == 0),
    {
        self.current_page == 0
    }

    /// Whether the current page is the last one: the page count is known and
    /// `current_page >= page_count - 1`.
    pub fn is_last_page(&self) -> (r: bool)
        ensures
            r == self.spec_is_last_page(),
    {
        if let Some(page_count) = self.page_count {
            let last = if page_count > 0 {
                page_count - 1
            } else {
                0
            };
            self.current_page >= last
        } else {
            false
        }
    }

    /// Request a reload: bump the reload nonce. The host treats the change
    /// like a query change and invalidates the load driver.
    pub fn trigger_reload(&mut self)
        ensures
            final(self).reload_trigger != old(self).reload_trigger,
            final(self).current_page == old(self).current_page,
            final(self).page_count == old(self).page_count,
            final(self).page_count_error == old(self).page_count_error,
    {
        self.reload_trigger = self.reload_trigger.wrapping_add(1);
    }
}

/// Options for the paginated view.
pub struct UsePaginationOptions {
    overscan_page_count: usize,
}

impl UsePaginationOptions {
    /// How many pages to load before and after the current page. A value of 1
    /// means that the current page as well as the one before and after will
    /// be loaded. Defaults to 1.
    pub fn overscan_page_count(self, overscan_page_count: usize) -> (r: Self)
        ensures
            r.spec_overscan_page_count() == overscan_page_count,
    {
        UsePaginationOptions { overscan_page_count }
    }

    /// The configured overscan.
    pub closed spec fn spec_overscan_page_count(self) -> usize {
        self.overscan_page_count
    }

    /// The configured overscan.
    pub fn get_overscan_page_count(&self) -> (r: usize)
        ensures
            r == self.spec_overscan_page_count(),
    {
        self.overscan_page_count
    }
}

impl Default for UsePaginationOptions {
    /// One page of overscan on each side.
    fn default() -> (r: Self)
        ensures
            r.spec_overscan_page_count() == 1,
    {
        UsePaginationOptions { overscan_page_count: 1 }
    }
}

/// The index range to load for `current_page`: `overscan_page_count` pages
/// before the current page up to the end of the current page.
pub fn load_range(
    current_page: usize,
    items_per_page: usize,
    overscan_page_count: usize,
) -> (r: Range<usize>)
    requires
        current_page + overscan_page_count <= usize::MAX,
        (current_page + overscan_page_count) * items_per_page <= usize::MAX,
    ensures
        r.start == (if current_page >= overscan_page_count {
            current_page - overscan_page_count
        } else {
            0int
        }) * items_per_page,
        r.end == (current_page + overscan_page_count) * items_per_page,
{
    let first_page = if current_page >= overscan_page_count {
        current_page - overscan_page_count
    } else {
        0
    };
    proof {
        assert(first_page * items_per_page <= (current_page + overscan_page_count)
            * items_per_page) by (nonlinear_arith)
            requires
                first_page <= current_page + overscan_page_count,
                items_per_page >= 0,
        ;
    }
    let start = first_page * items_per_page;
    let end = (current_page + overscan_page_count) * items_per_page;
    start..end
}

/// The index range `current_page` displays: one page, starting at
/// `current_page * items_per_page`.
pub fn display_range(current_page: usize, items_per_page: usize) -> (r: Range<usize>)
    requires
        current_page * items_per_page + items_per_page <= usize::MAX,
    ensures
        r.start == current_page * items_per_page,
        r.end == current_page * items_per_page + items_per_page,
{
    let start = current_page * items_per_page;
    start..start + items_per_page
}

/// Lift a counted total of items to a number of pages: the quotient, rounded
/// up.
pub fn page_count_of(item_count: usize, items_per_page: usize) -> (r: usize)
    requires
        1 <= items_per_page,
    ensures
        r == spec_page_count(item_count as int, items_per_page as int),
{
    let quotient = item_count / items_per_page;
    let remainder = item_count % items_per_page;
    proof {
        assert((item_count + items_per_page - 1) / (items_per_page as int) == item_count as int
            / items_per_page as int + (if item_count as int % items_per_page as int == 0 {
            0int
        } else {
            1int
        })) by (nonlinear_arith)
            requires
                1 <= items_per_page as int,
                0 <= item_count as int,
        ;
        assert(quotient < usize::MAX || remainder == 0) by (nonlinear_arith)
            requires
                1 <= items_per_page as int,
                quotient == item_count as int / items_per_page as int,
                remainder == item_count as int % items_per_page as int,
                item_count <= usize::MAX,
        ;
    }
    if remainder == 0 {
        quotient
    } else {
        quotient + 1
    }
}

/// Fold a count outcome into the pagination state.
///
/// A counted total yields the page count and clears any error; a source that
/// cannot count, or a failed count, records a diagnostic and leaves the page
/// count as it was.
pub fn apply_count_result(
    state: &mut PaginationState,
    result: &Result<Option<usize>, String>,
    items_per_page: usize,
)
    requires
        1 <= items_per_page,
    ensures
        final(state).current_page == old(state).current_page,
        final(state).reload_trigger == old(state).reload_trigger,
        match result {
            Ok(Some(n)) => {
                &&& final(state).page_count == Some(
                    spec_page_count(*n as int, items_per_page as int) as usize,
                )
                &&& final(state).page_count_error is None
            },
            Ok(None) => {
                &&& final(state).page_count == old(state).page_count
                &&& final(state).page_count_error matches Some(m) && m@
                    == "Data source didn't provide an item/page count"@
            },
            Err(e) => {
                &&& final(state).page_count == old(state).page_count
                &&& final(state).page_count_error matches Some(m) && m@
                    == "Error fetching item/page count: "@ + e@
            },
        },
{
    match result {
        Ok(Some(count)) => {
            state.page_count = Some(page_count_of(*count, items_per_page));
            state.page_count_error = None;
        },
        Ok(None) => {
            state.page_count_error = Some(
                "Data source didn't provide an item/page count".to_owned(),
            );
        },
        Err(e) => {
            let mut message = "Error fetching item/page count: ".to_owned();
            message.append(e.as_str());
            state.page_count_error = Some(message);
        },
    }
}

} // verus!
