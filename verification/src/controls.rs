//! The page-controls calculator.
//!
//! Page buttons are shown in up to three groups: a few pages at the start, a
//! group around the current page, and a few pages at the end, with separators
//! standing for the pages hidden between them. Groups that touch or overlap
//! are merged. This module derives the three groups and the separator flags
//! from the current page, the page count, and the two size options.

use vstd::prelude::*;

use crate::pagination::PaginationState;

verus! {

/// First page of the group around the current page: half the display size
/// before it, not going below zero.
pub open spec fn spec_current_range_start(cp: int, dpc: int) -> int {
    if cp >= dpc / 2 {
        cp - dpc / 2
    } else {
        0
    }
}

/// Last page of the group around the current page: half the display size
/// after it.
pub open spec fn spec_current_range_end(cp: int, dpc: int) -> int {
    cp + dpc / 2
}

/// Whether the current group reaches into the start margin and merges with
/// the start group.
pub open spec fn spec_merge_start(cp: int, dpc: int, mpc: int) -> bool {
    spec_current_range_start(cp, dpc) <= mpc
}

/// Whether the current group reaches into the end margin and merges with the
/// end group.
pub open spec fn spec_merge_end(cp: int, pc: int, dpc: int, mpc: int) -> bool {
    spec_current_range_end(cp, dpc) + 1 >= pc - mpc
}

/// One past the last page of the start group.
pub open spec fn spec_start_range_end(cp: int, pc: int, dpc: int, mpc: int) -> int {
    if spec_merge_start(cp, dpc, mpc) {
        spec_current_range_end(cp, dpc)
    } else {
        mpc + 1
    }
}

/// First page of the end group.
pub open spec fn spec_end_range_start(cp: int, pc: int, dpc: int, mpc: int) -> int {
    if spec_merge_end(cp, pc, dpc, mpc) {
        spec_current_range_start(cp, dpc) + 1
    } else if pc >= mpc + 1 {
        pc - mpc - 1
    } else {
        0
    }
}

/// Whether there are so few pages that everything collapses into the start
/// group.
pub open spec fn spec_merge_all(cp: int, pc: int, dpc: int, mpc: int) -> bool {
    spec_start_range_end(cp, pc, dpc, mpc) + 1 >= spec_end_range_start(cp, pc, dpc, mpc)
}

/// Whether page `p` belongs to the start group.
pub open spec fn in_start_group(p: int, cp: int, pc: int, dpc: int, mpc: int) -> bool {
    0 <= p < (if spec_merge_all(cp, pc, dpc, mpc) {
        pc
    } else {
        spec_start_range_end(cp, pc, dpc, mpc)
    })
}

/// Whether page `p` belongs to the group around the current page.
pub open spec fn in_current_group(p: int, cp: int, pc: int, dpc: int, mpc: int) -> bool {
    &&& !spec_merge_start(cp, dpc, mpc)
    &&& !spec_merge_end(cp, pc, dpc, mpc)
    &&& !spec_merge_all(cp, pc, dpc, mpc)
    &&& cp - mpc <= p <= cp + mpc
}

/// Whether page `p` belongs to the end group.
pub open spec fn in_end_group(p: int, cp: int, pc: int, dpc: int, mpc: int) -> bool {
    &&& !spec_merge_all(cp, pc, dpc, mpc)
    &&& spec_end_range_start(cp, pc, dpc, mpc) <= p < pc
}

/// The three page groups are pairwise disjoint, and ordered: start pages come
/// before current pages, current pages before end pages.
///
/// This needs the current group's half width to be at least the margin; with
/// a margin wider than half the display size the groups genuinely overlap.
pub proof fn lemma_controls_disjoint(cp: int, pc: int, dpc: int, mpc: int)
    requires
        0 <= cp,
        0 <= pc,
        0 <= mpc,
        2 * mpc <= dpc,
    ensures
        forall|p: int|
            !(in_start_group(p, cp, pc, dpc, mpc) && in_current_group(p, cp, pc, dpc, mpc)),
        forall|p: int|
            !(in_current_group(p, cp, pc, dpc, mpc) && in_end_group(p, cp, pc, dpc, mpc)),
        forall|p: int|
            !(in_start_group(p, cp, pc, dpc, mpc) && in_end_group(p, cp, pc, dpc, mpc)),
        forall|p: int, q: int|
            in_start_group(p, cp, pc, dpc, mpc) && in_current_group(q, cp, pc, dpc, mpc) ==> p
                < q,
        forall|p: int, q: int|
            in_current_group(p, cp, pc, dpc, mpc) && in_end_group(q, cp, pc, dpc, mpc) ==> p < q,
        forall|p: int, q: int|
            in_start_group(p, cp, pc, dpc, mpc) && in_end_group(q, cp, pc, dpc, mpc) ==> p < q,
{
}

/// Separators stand exactly for the hidden pages.
///
/// When no separator is shown every page is in a group; a shown separator has
/// a non-empty run of hidden pages next to it; and every hidden page lies in
/// the gap next to a shown separator: after the start group and before the
/// group that follows it (the separator before), or after the group that
/// precedes the end group and before the end group (the separator after).
///
/// This needs the current group to be wider than the margins on both sides,
/// `2 * mpc + 2 <= dpc`; with a narrower display size a separator can be
/// shown next to an empty gap.
pub proof fn lemma_controls_separators(cp: int, pc: int, dpc: int, mpc: int)
    requires
        0 <= cp,
        0 <= pc,
        0 <= mpc,
        2 * mpc + 2 <= dpc,
    ensures
        ({
            let merge_start = spec_merge_start(cp, dpc, mpc);
            let merge_end = spec_merge_end(cp, pc, dpc, mpc);
            let merge_all = spec_merge_all(cp, pc, dpc, mpc);
            let sre = spec_start_range_end(cp, pc, dpc, mpc);
            let ers = spec_end_range_start(cp, pc, dpc, mpc);
            let show_before = !(merge_start || merge_all);
            let show_after = !(merge_end || merge_all);
            // the page right after the start group, and right before the
            // group that follows the gap
            let next_start = if !merge_start && !merge_end && !merge_all {
                cp - mpc
            } else {
                ers
            };
            // one past the group that precedes the end group
            let prev_end = if !merge_start && !merge_end && !merge_all {
                cp + mpc + 1
            } else {
                sre
            };
            &&& (!show_before && !show_after) ==> forall|p: int|
                0 <= p < pc ==> in_start_group(p, cp, pc, dpc, mpc)
            &&& show_before ==> sre < next_start
            &&& show_before ==> forall|p: int|
                sre <= p < next_start ==> !in_start_group(p, cp, pc, dpc, mpc)
                    && !in_current_group(p, cp, pc, dpc, mpc) && !in_end_group(
                    p,
                    cp,
                    pc,
                    dpc,
                    mpc,
                )
            &&& (show_after && prev_end < pc) ==> prev_end < ers
            &&& show_after ==> forall|p: int|
                prev_end <= p < ers ==> !in_start_group(p, cp, pc, dpc, mpc)
                    && !in_current_group(p, cp, pc, dpc, mpc) && !in_end_group(
                    p,
                    cp,
                    pc,
                    dpc,
                    mpc,
                )
            &&& forall|p: int|
                0 <= p < pc && !in_start_group(p, cp, pc, dpc, mpc) && !in_current_group(
                    p,
                    cp,
                    pc,
                    dpc,
                    mpc,
                ) && !in_end_group(p, cp, pc, dpc, mpc) ==> (show_before && sre <= p < next_start)
                    || (show_after && prev_end <= p < ers)
        }),
{
}

/// The three page groups and separator flags that make up the pagination
/// controls, derived by [`use_pagination_controls`]. Each group lists page
/// indices in increasing order; page indices count from 0.
pub struct PaginationControls {
    /// The current page.
    pub current_page: usize,
    /// The error message if the page count could not be determined.
    pub page_count_error: Option<String>,
    /// The pages at the start of the pagination. When everything merges this
    /// is the only non-empty group.
    pub start_range: Vec<usize>,
    /// The pages around the current page; empty when merged into the start
    /// or end group.
    pub current_range: Vec<usize>,
    /// The pages at the end of the pagination; empty when everything merges.
    pub end_range: Vec<usize>,
    /// Whether to show a separator between the start group and what follows.
    pub show_separator_before: bool,
    /// Whether to show a separator between the current group and the end
    /// group.
    pub show_separator_after: bool,
}

/// Options for [`use_pagination_controls`].
pub struct UsePaginationControlsOptions {
    display_page_count: usize,
    margin_page_count: usize,
}

impl UsePaginationControlsOptions {
    /// How many pages to show around the current page, the current page
    /// included. A value of 3 will display one page before and one page
    /// after the current page; odd numbers keep the group symmetric.
    /// Defaults to 5.
    pub fn display_page_count(self, display_page_count: usize) -> (r: Self)
        ensures
            r.spec_display_page_count() == display_page_count,
            r.spec_margin_page_count() == self.spec_margin_page_count(),
    {
        UsePaginationControlsOptions { display_page_count, ..self }
    }

    /// How many pages to show at the beginning and end of the pagination.
    /// Defaults to 1.
    pub fn margin_page_count(self, margin_page_count: usize) -> (r: Self)
        ensures
            r.spec_margin_page_count() == margin_page_count,
            r.spec_display_page_count() == self.spec_display_page_count(),
    {
        UsePaginationControlsOptions { margin_page_count, ..self }
    }

    /// The configured display size.
    pub closed spec fn spec_display_page_count(self) -> usize {
        self.display_page_count
    }

    /// The configured margin size.
    pub closed spec fn spec_margin_page_count(self) -> usize {
        self.margin_page_count
    }

    /// The configured display size.
    pub fn get_display_page_count(&self) -> (r: usize)
        ensures
            r == self.spec_display_page_count(),
    {
        self.display_page_count
    }

    /// The configured margin size.
    pub fn get_margin_page_count(&self) -> (r: usize)
        ensures
            r == self.spec_margin_page_count(),
    {
        self.margin_page_count
    }
}

impl Default for UsePaginationControlsOptions {
    /// Five pages around the current one, one page at each margin.
    fn default() -> (r: Self)
        ensures
            r.spec_display_page_count() == 5,
            r.spec_margin_page_count() == 1,
    {
        UsePaginationControlsOptions { display_page_count: 5, margin_page_count: 1 }
    }
}

/// A vector holding the pages `first..first + len`, in order.
fn consecutive_pages(first: usize, len: usize) -> (r: Vec<usize>)
    requires
        first + len <= usize::MAX,
    ensures
        r@.len() == len,
        forall|i: int| 0 <= i < len ==> r@[i] == first + i,
{
    let mut pages: Vec<usize> = Vec::new();
    let mut i: usize = 0;
    while i < len
        invariant
            i <= len,
            first + len <= usize::MAX,
            pages@.len() == i,
            forall|j: int| 0 <= j < i ==> pages@[j] == first + j,
        decreases len - i,
    {
        pages.push(first + i);
        i += 1;
    }
    pages
}

/// Derive the pagination controls from the state.
///
/// An unknown page count counts as zero pages. The group around the current
/// page spans half the display size to each side; when it reaches into a
/// margin it merges with that margin's group, and when the start and end
/// groups then touch as well, everything collapses into the start group. A
/// separator is shown only next to a detached current group.
pub fn use_pagination_controls(
    state: &PaginationState,
    options: UsePaginationControlsOptions,
) -> (r: PaginationControls)
    requires
        state.current_page + options.spec_display_page_count() / 2 + 1 <= usize::MAX,
        state.current_page + options.spec_margin_page_count() + 1 <= usize::MAX,
        options.spec_margin_page_count() + 2 <= usize::MAX,
    ensures
        ({
            let cp = state.current_page as int;
            let pc = match state.page_count {
                Some(n) => n as int,
                None => 0,
            };
            let dpc = options.spec_display_page_count() as int;
            let mpc = options.spec_margin_page_count() as int;
            let merge_start = spec_merge_start(cp, dpc, mpc);
            let merge_end = spec_merge_end(cp, pc, dpc, mpc);
            let merge_all = spec_merge_all(cp, pc, dpc, mpc);
            let sre = spec_start_range_end(cp, pc, dpc, mpc);
            let ers = spec_end_range_start(cp, pc, dpc, mpc);
            &&& r.current_page == state.current_page
            &&& r.page_count_error == state.page_count_error
            &&& r.start_range@.len() == (if merge_all {
                pc
            } else {
                sre
            })
            &&& forall|i: int| 0 <= i < r.start_range@.len() ==> r.start_range@[i] == i
            &&& r.end_range@.len() == (if merge_all || ers >= pc {
                0
            } else {
                pc - ers
            })
            &&& forall|i: int| 0 <= i < r.end_range@.len() ==> r.end_range@[i] == ers + i
            &&& r.current_range@.len() == (if merge_start || merge_end || merge_all {
                0
            } else {
                2 * mpc + 1
            })
            &&& forall|i: int|
                0 <= i < r.current_range@.len() ==> r.current_range@[i] == cp - mpc + i
            &&& r.show_separator_before == !(merge_start || merge_all)
            &&& r.show_separator_after == !(merge_end || merge_all)
        }),
{
    let current_page = state.current_page;
    let page_count = match state.page_count {
        Some(n) => n,
        None => 0,
    };
    let half = options.display_page_count / 2;
    let margin_page_count = options.margin_page_count;

    let current_range_start = if current_page >= half {
        current_page - half
    } else {
        0
    };
    let current_range_end = current_page + half;

    let merge_current_with_start = current_range_start <= margin_page_count;
    let end_margin_start = if page_count >= margin_page_count {
        page_count - margin_page_count
    } else {
        0
    };
    let merge_current_with_end = current_range_end + 1 >= end_margin_start;

    let start_range_end = if merge_current_with_start {
        current_range_end
    } else {
        margin_page_count + 1
    };

    let end_range_start = if merge_current_with_end {
        current_range_start + 1
    } else if page_count >= margin_page_count + 1 {
        page_count - (margin_page_count + 1)
    } else {
        0
    };

    let merge_all = start_range_end + 1 >= end_range_start;

    let start_range = if merge_all {
        consecutive_pages(0, page_count)
    } else {
        consecutive_pages(0, start_range_end)
    };

    let end_range = if merge_all || end_range_start >= page_count {
        Vec::new()
    } else {
        consecutive_pages(end_range_start, page_count - end_range_start)
    };

    let current_range = if merge_current_with_start || merge_current_with_end || merge_all {
        Vec::new()
    } else {
        consecutive_pages(current_page - margin_page_count, 2 * margin_page_count + 1)
    };

    PaginationControls {
        current_page,
        page_count_error: state.page_count_error.clone(),
        start_range,
        current_range,
        end_range,
        show_separator_before: !(merge_current_with_start || merge_all),
        show_separator_after: !(merge_current_with_end || merge_all),
    }
}

} // verus!
