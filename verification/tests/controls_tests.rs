use windowing::controls::{use_pagination_controls, UsePaginationControlsOptions};
use windowing::pagination::PaginationState;

fn state(current_page: usize, page_count: Option<usize>) -> PaginationState {
    let mut state = PaginationState::new();
    state.current_page = current_page;
    state.page_count = page_count;
    state
}

#[test]
fn dense_pagination_shows_three_groups() {
    // deep inside a long pagination: margins, a detached current group, and
    // separators on both sides
    let controls = use_pagination_controls(
        &state(50, Some(100)),
        UsePaginationControlsOptions::default(),
    );
    assert_eq!(controls.current_page, 50);
    assert_eq!(controls.start_range, vec![0, 1]);
    assert_eq!(controls.current_range, vec![49, 50, 51]);
    assert_eq!(controls.end_range, vec![98, 99]);
    assert!(controls.show_separator_before);
    assert!(controls.show_separator_after);
}

#[test]
fn current_near_the_start_merges_into_the_start_group() {
    let controls = use_pagination_controls(
        &state(2, Some(100)),
        UsePaginationControlsOptions::default(),
    );
    // the current group [0, 4] swallows the start margin
    assert_eq!(controls.start_range, vec![0, 1, 2, 3]);
    assert_eq!(controls.current_range, Vec::<usize>::new());
    assert_eq!(controls.end_range, vec![98, 99]);
    assert!(!controls.show_separator_before);
    assert!(controls.show_separator_after);
}

#[test]
fn current_near_the_end_merges_into_the_end_group() {
    let controls = use_pagination_controls(
        &state(97, Some(100)),
        UsePaginationControlsOptions::default(),
    );
    // crs = 95, cre = 99: the current group swallows the end margin
    assert_eq!(controls.start_range, vec![0, 1]);
    assert_eq!(controls.current_range, Vec::<usize>::new());
    assert_eq!(controls.end_range, (96..100).collect::<Vec<_>>());
    assert!(controls.show_separator_before);
    assert!(!controls.show_separator_after);
}

#[test]
fn few_pages_merge_into_one_group() {
    let controls = use_pagination_controls(
        &state(0, Some(5)),
        UsePaginationControlsOptions::default(),
    );
    assert_eq!(controls.start_range, vec![0, 1, 2, 3, 4]);
    assert_eq!(controls.current_range, Vec::<usize>::new());
    assert_eq!(controls.end_range, Vec::<usize>::new());
    assert!(!controls.show_separator_before);
    assert!(!controls.show_separator_after);
}

#[test]
fn unknown_page_count_counts_as_zero() {
    let controls =
        use_pagination_controls(&state(0, None), UsePaginationControlsOptions::default());
    assert_eq!(controls.start_range, Vec::<usize>::new());
    assert_eq!(controls.current_range, Vec::<usize>::new());
    assert_eq!(controls.end_range, Vec::<usize>::new());
    assert!(!controls.show_separator_before);
    assert!(!controls.show_separator_after);
}

#[test]
fn groups_partition_the_pages_when_nothing_is_hidden() {
    // 12 pages, current in the middle, wide display: everything merges
    let options = UsePaginationControlsOptions::default().display_page_count(25);
    let controls = use_pagination_controls(&state(6, Some(12)), options);
    assert_eq!(controls.start_range, (0..12).collect::<Vec<_>>());
    assert!(controls.current_range.is_empty());
    assert!(controls.end_range.is_empty());
    assert!(!controls.show_separator_before);
    assert!(!controls.show_separator_after);
}

#[test]
fn wider_margins_widen_the_outer_groups() {
    let options = UsePaginationControlsOptions::default()
        .display_page_count(7)
        .margin_page_count(2);
    let controls = use_pagination_controls(&state(50, Some(100)), options);
    assert_eq!(controls.start_range, vec![0, 1, 2]);
    assert_eq!(controls.current_range, vec![48, 49, 50, 51, 52]);
    assert_eq!(controls.end_range, vec![97, 98, 99]);
    assert!(controls.show_separator_before);
    assert!(controls.show_separator_after);
}

#[test]
fn groups_are_disjoint_and_ordered() {
    // sweep the current page across a mid-sized pagination and check the
    // partition properties on the concrete vectors
    for current_page in 0..30 {
        let controls = use_pagination_controls(
            &state(current_page, Some(30)),
            UsePaginationControlsOptions::default(),
        );
        let mut all = controls.start_range.clone();
        all.extend_from_slice(&controls.current_range);
        all.extend_from_slice(&controls.end_range);
        // strictly increasing: disjoint and ordered
        for pair in all.windows(2) {
            assert!(pair[0] < pair[1], "cp={current_page}: {all:?}");
        }
        // the current page is always visible
        assert!(all.contains(&current_page), "cp={current_page}: {all:?}");
        // no separators means every page is shown
        if !controls.show_separator_before && !controls.show_separator_after {
            assert_eq!(all, (0..30).collect::<Vec<_>>());
        }
    }
}

#[test]
fn options_defaults_and_builders() {
    let options = UsePaginationControlsOptions::default();
    assert_eq!(options.get_display_page_count(), 5);
    assert_eq!(options.get_margin_page_count(), 1);
    let options = options.display_page_count(9).margin_page_count(3);
    assert_eq!(options.get_display_page_count(), 9);
    assert_eq!(options.get_margin_page_count(), 3);
}
