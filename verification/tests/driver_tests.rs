use windowing::driver::LoadDriver;
use windowing::loader::LoadedItems;
use windowing::pagination::{apply_count_result, display_range, load_range, PaginationState};
use windowing::window::{window_slots, WindowSlot};

#[test]
fn basic_load_flow() {
    // Five items a page, one page of overscan, 23 items in total.
    let mut driver: LoadDriver<u32> = LoadDriver::new();

    let captured = driver.begin_count_load();
    driver.finish_count_load(captured, Ok(Some(23)));
    assert_eq!(driver.cache().item_count(), Some(23));

    let mut state = PaginationState::new();
    apply_count_result(&mut state, driver.count_result(), 5);
    assert_eq!(state.page_count, Some(5));
    assert_eq!(state.page_count_error, None);

    assert_eq!(display_range(0, 5), 0..5);
    assert_eq!(load_range(0, 5, 1), 0..5);

    let (missing, generation) = driver.begin_items_load(0..5).expect("a load must start");
    assert_eq!(missing, 0..5);

    // the loader is asked exactly once: everything is in flight now
    assert_eq!(driver.begin_items_load(0..5), None);

    driver.finish_items_load(
        generation,
        missing,
        Ok(LoadedItems {
            items: vec![100, 101, 102, 103, 104],
            range: 0..5,
        }),
    );
    for i in 0..5 {
        assert_eq!(driver.cache().get(i).loaded(), Some(&(100 + i as u32)));
    }
    assert_eq!(driver.begin_items_load(0..5), None);
}

#[test]
fn short_final_page_updates_item_count() {
    // A paginated source with pages of 20 returns only 7 items for the page
    // starting at index 80: the total becomes 87 and the page count 5.
    let mut driver: LoadDriver<u32> = LoadDriver::new();

    let (missing, generation) = driver.begin_items_load(80..100).expect("a load must start");
    assert_eq!(missing, 80..100);

    driver.finish_items_load(
        generation,
        missing,
        Ok(LoadedItems {
            items: (0..7).collect(),
            range: 80..87,
        }),
    );

    assert_eq!(driver.cache().item_count(), Some(87));
    assert_eq!(driver.count_result(), &Ok(Some(87)));
    for i in 80..87 {
        assert_eq!(driver.cache().get(i).loaded(), Some(&((i - 80) as u32)));
    }

    let mut state = PaginationState::new();
    apply_count_result(&mut state, driver.count_result(), 20);
    assert_eq!(state.page_count, Some(5));
}

#[test]
fn stale_response_is_suppressed() {
    // A load for query A is in flight when the query changes to B: A's
    // response arrives last and must leave no trace.
    let mut driver: LoadDriver<u32> = LoadDriver::new();

    let (missing_a, generation_a) = driver.begin_items_load(0..5).expect("a load must start");
    let count_generation_a = driver.begin_count_load();

    driver.invalidate();

    let count_generation_b = driver.begin_count_load();
    driver.finish_count_load(count_generation_b, Ok(Some(7)));

    // A's replies arrive after the change
    driver.finish_items_load(
        generation_a,
        missing_a,
        Ok(LoadedItems {
            items: vec![1, 2, 3, 4, 5],
            range: 0..5,
        }),
    );
    driver.finish_count_load(count_generation_a, Ok(Some(500)));

    // only B's outcome is visible
    assert_eq!(driver.cache().item_count(), Some(7));
    assert_eq!(driver.count_result(), &Ok(Some(7)));
    for i in 0..5 {
        assert!(driver.cache().get(i).is_placeholder());
    }
}

#[test]
fn error_is_scoped_to_the_requested_range() {
    let mut driver: LoadDriver<u32> = LoadDriver::new();

    let (missing, generation) = driver.begin_items_load(0..20).expect("a load must start");
    driver.finish_items_load(
        generation,
        missing,
        Ok(LoadedItems {
            items: (0..20).collect(),
            range: 0..20,
        }),
    );

    let (missing, generation) = driver.begin_items_load(20..40).expect("a load must start");
    assert_eq!(missing, 20..40);
    driver.finish_items_load(generation, missing, Err("boom".to_string()));

    for i in 20..40 {
        assert_eq!(driver.cache().get(i).error().map(String::as_str), Some("boom"));
    }
    for i in 0..20 {
        assert_eq!(driver.cache().get(i).loaded(), Some(&(i as u32)));
    }
    // errors are not refetched
    assert_eq!(driver.begin_items_load(20..40), None);
}

#[test]
fn count_errors_do_not_poison_items() {
    let mut driver: LoadDriver<u32> = LoadDriver::new();
    let (missing, generation) = driver.begin_items_load(0..3).expect("a load must start");
    driver.finish_items_load(
        generation,
        missing,
        Ok(LoadedItems {
            items: vec![1, 2, 3],
            range: 0..3,
        }),
    );

    let captured = driver.begin_count_load();
    driver.finish_count_load(captured, Err("offline".to_string()));
    assert_eq!(driver.count_result(), &Err("offline".to_string()));
    assert_eq!(driver.cache().item_count(), None);
    for i in 0..3 {
        assert_eq!(driver.cache().get(i).loaded(), Some(&(1 + i as u32)));
    }
}

#[test]
fn paused_loading_starts_nothing() {
    let mut driver: LoadDriver<u32> = LoadDriver::new();
    driver.cache_mut().pause_reactive_loading();
    assert_eq!(driver.begin_items_load(0..5), None);
    driver.cache_mut().resume_reactive_loading();
    assert!(driver.begin_items_load(0..5).is_some());
}

#[test]
fn display_window_clamps_and_grows() {
    let mut driver: LoadDriver<u32> = LoadDriver::new();
    assert_eq!(driver.display_window(0..10), 0..10);
    assert_eq!(driver.cache().len(), 10);

    let captured = driver.begin_count_load();
    driver.finish_count_load(captured, Ok(Some(7)));
    assert_eq!(driver.display_window(0..10), 0..7);
    assert_eq!(driver.display_window(5..10), 5..7);
}

#[test]
fn invalidate_clears_and_changes_generation() {
    let mut driver: LoadDriver<u32> = LoadDriver::new();
    let (missing, generation) = driver.begin_items_load(0..4).expect("a load must start");
    driver.finish_items_load(
        generation,
        missing,
        Ok(LoadedItems {
            items: vec![9, 9, 9, 9],
            range: 0..4,
        }),
    );
    let before = driver.generation();
    driver.invalidate();
    assert_ne!(driver.generation(), before);
    assert_eq!(driver.cache().len(), 4);
    for i in 0..4 {
        assert!(driver.cache().get(i).is_placeholder());
    }
    assert_eq!(driver.cache().item_count(), None);
    // the same window is missing again
    assert_eq!(driver.begin_items_load(0..4).expect("must reload").0, 0..4);
}

#[test]
fn window_slots_mirror_the_cache() {
    let mut driver: LoadDriver<u32> = LoadDriver::new();
    let (missing, generation) = driver.begin_items_load(0..3).expect("a load must start");
    driver.finish_items_load(
        generation,
        missing,
        Ok(LoadedItems {
            items: vec![7, 8, 9],
            range: 0..3,
        }),
    );
    let (missing, generation) = driver.begin_items_load(3..4).expect("a load must start");
    driver.finish_items_load(generation, missing, Err("gone".to_string()));
    let window = driver.display_window(0..6);
    assert_eq!(window, 0..6);

    let slots = window_slots(driver.cache(), window);
    assert_eq!(slots.len(), 6);
    for (offset, slot) in slots.iter().enumerate() {
        match slot {
            WindowSlot::Ready(item) => assert_eq!(**item, 7 + offset as u32),
            WindowSlot::Failed(message) => {
                assert_eq!(offset, 3);
                assert_eq!(message, "gone");
            }
            WindowSlot::Pending => assert!(offset > 3),
        }
    }
}
