use spotify_tui::pages::ScrollableResultPages;

#[test]
fn scenario_cache_append_and_lookup() {
    let mut cache: ScrollableResultPages<&str> = ScrollableResultPages::new();
    assert_eq!(cache.get_results(None), None);
    cache.add_pages("page1");
    assert_eq!(cache.get_results(None), Some(&"page1"));
    cache.add_pages("page2");
    assert_eq!(cache.get_results(Some(0)), Some(&"page1"));
    assert_eq!(cache.get_results(None), Some(&"page2"));
    assert_eq!(cache.index(), 1);
}

#[test]
fn append_makes_page_current() {
    let mut cache: ScrollableResultPages<u32> = ScrollableResultPages::default();
    for p in [7u32, 8, 9] {
        cache.add_pages(p);
        assert_eq!(cache.get_results(None), Some(&p));
    }
    assert_eq!(cache.len(), 3);
    assert_eq!(cache.get_results(Some(3)), None);
}

#[test]
fn cursor_moves_within_cached_pages() {
    let mut cache: ScrollableResultPages<u32> = ScrollableResultPages::new();
    assert!(!cache.select_next());
    cache.add_pages(1);
    cache.add_pages(2);
    cache.select_previous();
    assert_eq!(cache.index(), 0);
    cache.select_previous();
    assert_eq!(cache.index(), 0);
    assert!(cache.select_next());
    assert_eq!(cache.get_results(None), Some(&2));
    assert!(!cache.select_next());
    assert_eq!(cache.index(), 1);
}

#[test]
fn mutable_lookup_edits_in_place() {
    let mut cache: ScrollableResultPages<u32> = ScrollableResultPages::new();
    assert!(cache.get_mut_results(None).is_none());
    cache.add_pages(1);
    cache.add_pages(2);
    *cache.get_mut_results(Some(0)).unwrap() = 10;
    *cache.get_mut_results(None).unwrap() += 5;
    assert_eq!(cache.get_results(Some(0)), Some(&10));
    assert_eq!(cache.get_results(Some(1)), Some(&7));
    assert!(cache.get_mut_results(Some(2)).is_none());
}
