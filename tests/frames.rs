use page_cache::{DocumentKey, PdfPageCache, PdfPageCacheMutableState, RenderSettings2};

fn loaded(pages: usize) -> PdfPageCacheMutableState<String> {
    let mut state = PdfPageCacheMutableState::new();
    state.set_new_pdf(Some(DocumentKey { identity: 7, page_count: pages }), RenderSettings2::default());
    state
}

#[test]
fn frame_start_rotates_ranges() {
    let mut state = loaded(20);
    let mut cache = PdfPageCache::new();
    cache.get_images(4..7, &mut state);
    assert_eq!(cache.pages_this_frame, 4..7);
    cache.frame_start();
    assert_eq!(cache.pages_last_frame, 4..7);
    assert_eq!(cache.pages_this_frame, 0..0);
    cache.get_images(9..11, &mut state);
    assert_eq!(state.requested_pages, 4..11);
}

#[test]
fn contiguous_ranges_in_one_frame_are_merged() {
    let mut state = loaded(20);
    let mut cache = PdfPageCache::new();
    cache.get_images(4..7, &mut state);
    cache.get_images(7..9, &mut state);
    assert_eq!(cache.pages_this_frame, 4..9);
    assert_eq!(state.requested_pages, 4..9);
}

#[test]
fn discontiguous_range_replaces_the_frame_so_far() {
    let mut state = loaded(30);
    let mut cache = PdfPageCache::new();
    cache.get_images(2..5, &mut state);
    cache.get_images(12..15, &mut state);
    assert_eq!(cache.pages_this_frame, 12..15);
    assert_eq!(state.requested_pages, 12..15);
    for page in 2..5 {
        assert!(!state.requested_pages.contains(&page));
    }
}

#[test]
fn discontiguous_range_still_keeps_last_frame() {
    let mut state = loaded(30);
    let mut cache = PdfPageCache::new();
    cache.get_images(10..13, &mut state);
    cache.frame_start();
    cache.get_images(2..5, &mut state);
    cache.get_images(11..14, &mut state);
    assert_eq!(cache.pages_this_frame, 11..14);
    assert_eq!(state.requested_pages, 10..14);
}

#[test]
fn first_page_alone_is_not_tracked() {
    let mut state = loaded(8);
    let mut cache = PdfPageCache::new();
    cache.get_images(3..5, &mut state);
    let r = cache.get_images(0..1, &mut state);
    assert_eq!(r.images.len(), 1);
    assert!(!r.wake_worker);
    assert_eq!(cache.pages_this_frame, 3..5);
    assert_eq!(state.requested_pages, 3..5);
}

#[test]
fn images_outside_the_slots_are_placeholders() {
    let mut state = loaded(4);
    let mut cache = PdfPageCache::new();
    let r = cache.get_images(2..7, &mut state);
    assert_eq!(r.images, vec![None, None, None, None, None]);
    let r = cache.get_images(5..3, &mut state);
    assert!(r.images.is_empty());
}

#[test]
fn images_are_copies_of_the_slots() {
    let mut state = loaded(4);
    state.images[1] = Some("one".to_string());
    state.images[2] = Some("two".to_string());
    let mut cache = PdfPageCache::new();
    let r = cache.get_images(1..4, &mut state);
    assert_eq!(r.images, vec![Some("one".to_string()), Some("two".to_string()), None]);
    assert_eq!(state.images[1], Some("one".to_string()));
}

#[test]
fn wake_only_when_the_request_is_new_to_the_worker() {
    let mut state = loaded(10);
    let mut cache = PdfPageCache::new();
    assert!(cache.get_images(1..3, &mut state).wake_worker);
    state.acknowledged_pages = 1..3;
    assert!(!cache.get_images(1..3, &mut state).wake_worker);
    assert!(cache.get_images(3..4, &mut state).wake_worker);
}
