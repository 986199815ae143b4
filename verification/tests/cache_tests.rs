use std::sync::Arc;

use windowing::cache::Cache;
use windowing::item_state::ItemState;
use windowing::loader::LoadedItems;

#[test]
fn test_missing_range() {
    let mut cache: Cache<i32> = Cache::new();

    assert_eq!(cache.missing_range(0..10), Some(0..10));
    assert_eq!(cache.missing_range(5..10), Some(5..10));

    cache.write_loaded(
        Ok(LoadedItems {
            items: (0..5).collect::<Vec<_>>(),
            range: 0..5,
        }),
        0..5,
    );

    assert_eq!(cache.missing_range(0..10), Some(5..10));
    assert_eq!(cache.missing_range(5..10), Some(5..10));
    assert_eq!(cache.missing_range(5..20), Some(5..20));

    cache.write_loading(5..9);

    assert_eq!(cache.missing_range(0..10), Some(9..10));
    assert_eq!(cache.missing_range(5..10), Some(9..10));
    assert_eq!(cache.missing_range(5..20), Some(9..20));
}

#[test]
fn missing_range_empty_window_is_none() {
    let cache: Cache<i32> = Cache::new();
    assert_eq!(cache.missing_range(3..3), None);
    assert_eq!(cache.missing_range(7..3), None);
}

#[test]
fn missing_range_skips_errors_and_loaded() {
    // An arbitrary pattern of placeholder and non-placeholder entries: the
    // returned range starts at the first placeholder and runs to the
    // window's end.
    let mut cache: Cache<u8> = Cache::new();
    cache.grow(6);
    cache.write_loaded(
        Ok(LoadedItems {
            items: vec![1],
            range: 0..1,
        }),
        0..1,
    );
    cache.write_loaded(Err("nope".to_string()), 1..2);
    // state: [Loaded, Error, Placeholder, Placeholder, Placeholder, Placeholder]
    assert_eq!(cache.missing_range(0..6), Some(2..6));
    // errors are not refetched
    assert_eq!(cache.missing_range(0..2), None);
    // a window of placeholders between non-missing ends
    cache.write_loading(4..5);
    assert_eq!(cache.missing_range(0..4), Some(2..4));
}

#[test]
fn missing_range_is_clamped_by_item_count() {
    let mut cache: Cache<u8> = Cache::new();
    cache.grow(4);
    cache.set_item_count(Some(6));
    // window reaches past the known total: the range stops at the total
    assert_eq!(cache.missing_range(2..10), Some(2..6));
    // everything at or past the total is never missing
    cache.set_item_count(Some(2));
    assert_eq!(cache.missing_range(2..10), None);
    // a window that starts beyond the cache is returned as it is
    assert_eq!(cache.missing_range(4..10), Some(4..10));
}

#[test]
fn round_trip_load() {
    let mut cache: Cache<u32> = Cache::new();
    cache.write_loaded(
        Ok(LoadedItems {
            items: vec![7, 8, 9],
            range: 4..7,
        }),
        4..7,
    );
    assert_eq!(cache.len(), 7);
    for i in 0..3 {
        assert_eq!(cache.get(4 + i).loaded(), Some(&(7 + i as u32)));
    }
    assert_eq!(cache.missing_range(4..7), None);
    // the indices before the served range were grown as placeholders
    for i in 0..4 {
        assert!(cache.get(i).is_placeholder());
    }
}

#[test]
fn error_marking_is_scoped() {
    let mut cache: Cache<u32> = Cache::new();
    cache.write_loaded(
        Ok(LoadedItems {
            items: (0..10).collect(),
            range: 0..10,
        }),
        0..10,
    );
    // the requested range reaches past the cache: only existing slots turn
    // into errors, the cache does not grow
    cache.write_loaded(Err("boom".to_string()), 6..14);
    assert_eq!(cache.len(), 10);
    for i in 0..6 {
        assert_eq!(cache.get(i).loaded(), Some(&(i as u32)));
    }
    for i in 6..10 {
        assert_eq!(cache.get(i).error().map(String::as_str), Some("boom"));
    }
}

#[test]
fn error_write_on_empty_cache_is_a_no_op() {
    let mut cache: Cache<u32> = Cache::new();
    cache.write_loaded(Err("boom".to_string()), 3..9);
    assert_eq!(cache.len(), 0);
}

#[test]
fn grow_never_shrinks_and_resize_does() {
    let mut cache: Cache<u8> = Cache::new();
    cache.grow(5);
    assert_eq!(cache.len(), 5);
    cache.grow(3);
    assert_eq!(cache.len(), 5);
    cache.resize(2);
    assert_eq!(cache.len(), 2);
    assert!(!cache.is_empty());
    cache.resize(0);
    assert!(cache.is_empty());
}

#[test]
fn clear_keeps_length_and_forgets_count() {
    let mut cache: Cache<u8> = Cache::new();
    cache.write_loaded(
        Ok(LoadedItems {
            items: vec![1, 2, 3],
            range: 0..3,
        }),
        0..3,
    );
    cache.set_item_count(Some(3));
    cache.clear();
    assert_eq!(cache.len(), 3);
    assert_eq!(cache.item_count(), None);
    for i in 0..3 {
        assert!(cache.get(i).is_placeholder());
    }
}

#[test]
fn write_loading_marks_and_grows() {
    let mut cache: Cache<u8> = Cache::new();
    cache.write_loading(2..5);
    assert_eq!(cache.len(), 5);
    assert!(cache.get(0).is_placeholder());
    assert!(cache.get(1).is_placeholder());
    for i in 2..5 {
        assert!(cache.get(i).is_loading());
    }
}

#[test]
fn mutations_adjust_count_but_not_reload() {
    let mut cache: Cache<&'static str> = Cache::new();
    cache.write_loaded(
        Ok(LoadedItems {
            items: vec!["a", "b", "c"],
            range: 0..3,
        }),
        0..3,
    );
    cache.set_item_count(Some(3));

    cache.update_item(1, "B");
    assert_eq!(cache.get(1).loaded(), Some(&"B"));
    assert_eq!(cache.item_count(), Some(3));

    cache.insert_item(1, "x");
    assert_eq!(cache.len(), 4);
    assert_eq!(cache.item_count(), Some(4));
    assert_eq!(cache.get(1).loaded(), Some(&"x"));
    assert_eq!(cache.get(2).loaded(), Some(&"B"));

    cache.remove_item(0);
    assert_eq!(cache.len(), 3);
    assert_eq!(cache.item_count(), Some(3));
    assert_eq!(cache.get(0).loaded(), Some(&"x"));
}

#[test]
fn pause_and_resume_reactive_loading() {
    let mut cache: Cache<u8> = Cache::new();
    assert!(cache.is_reactive_loading_active());
    cache.pause_reactive_loading();
    assert!(!cache.is_reactive_loading_active());
    cache.resume_reactive_loading();
    assert!(cache.is_reactive_loading_active());
}

#[test]
fn item_state_clone_shares_the_loaded_payload() {
    let payload = Arc::new(vec![1u8, 2, 3]);
    let state: ItemState<Vec<u8>> = ItemState::Loaded(Arc::clone(&payload));
    let copy = state.clone();
    match copy {
        ItemState::Loaded(p) => assert!(Arc::ptr_eq(&p, &payload)),
        _ => panic!("clone changed the state"),
    }
    let error: ItemState<Vec<u8>> = ItemState::Error("why".to_string());
    assert_eq!(error.clone().error().map(String::as_str), Some("why"));
    assert!(ItemState::<u8>::Placeholder.clone().is_placeholder());
    assert!(ItemState::<u8>::Loading.clone().is_loading());
}

#[test]
fn oversized_reply_spills_past_its_range() {
    // a reply longer than its declared range still lands item by item from
    // the range's start
    let mut cache: Cache<u8> = Cache::new();
    cache.grow(10);
    cache.write_loaded(
        Ok(LoadedItems {
            items: vec![1, 2, 3, 4, 5],
            range: 2..4,
        }),
        2..4,
    );
    assert_eq!(cache.len(), 10);
    for i in 0..5 {
        assert_eq!(cache.get(2 + i).loaded(), Some(&(1 + i as u8)));
    }
    assert!(cache.get(0).is_placeholder());
    assert!(cache.get(7).is_placeholder());
}

#[test]
fn oversized_reply_stops_at_the_cache_end() {
    let mut cache: Cache<u8> = Cache::new();
    cache.grow(3);
    cache.write_loaded(
        Ok(LoadedItems {
            items: vec![9, 8, 7, 6],
            range: 1..2,
        }),
        1..2,
    );
    assert_eq!(cache.len(), 3);
    assert!(cache.get(0).is_placeholder());
    assert_eq!(cache.get(1).loaded(), Some(&9));
    assert_eq!(cache.get(2).loaded(), Some(&8));
}
