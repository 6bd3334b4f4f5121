use hal::heap::{get_heap_stats, get_heap_used};

#[test]
fn heap_stub_reports_nothing() {
    assert_eq!(get_heap_used(), 0);
    assert!(get_heap_stats().is_none());
}
