use header_filter_lang::calendar::CalendarBuilder;
use header_filter_lang::id_filters::IsInCollectionsFilter;
use header_filter_lang::processor::LinkProcessor;
use header_filter_lang::store_error::{store_error_type_as_str, StoreError, StoreErrorKind};

fn chars(s: &str) -> Vec<char> {
    s.chars().collect()
}

fn components(parts: &[&str]) -> Vec<Vec<char>> {
    parts.iter().map(|p| chars(p)).collect()
}

#[test]
fn test_collections_filter_without_chain_admits_all() {
    let f = IsInCollectionsFilter::new(None);
    assert!(f.filter(&components(&["anything", "at", "all"])));
    assert!(f.filter(&components(&[])));
}

#[test]
fn test_collections_filter_matches_leading_components() {
    let f = IsInCollectionsFilter::new(Some(components(&["calendars", "work"])));
    assert!(f.filter(&components(&["calendars", "work", "2018.ics"])));
    assert!(!f.filter(&components(&["calendars", "home", "2018.ics"])));
    assert!(!f.filter(&components(&["notes", "work"])));
    // an identifier shorter than the chain matches as far as it reaches
    assert!(f.filter(&components(&["calendars"])));
}

#[test]
fn test_calendar_builder_collects_in_order() {
    let b: CalendarBuilder<u32> = CalendarBuilder::new();
    assert!(b.events.is_empty());
    assert!(b.collection.is_none());
    assert!(b.path.is_none());

    let b = b.with_event(3).in_collection(7).at_path(chars("cal/2018.ics")).with_event(4);
    assert_eq!(b.events, vec![3, 4]);
    assert_eq!(b.collection, Some(7));
    assert_eq!(b.path, Some(chars("cal/2018.ics")));
}

#[test]
fn test_link_processor_default() {
    let p = LinkProcessor::default();
    assert!(p.process_internal_links);
    assert!(!p.create_internal_targets);
    assert!(p.process_external_links);
    assert!(!p.process_refs);
}

#[test]
fn test_link_processor_builder() {
    let p = LinkProcessor::default()
        .process_internal_links(false)
        .create_internal_targets(true)
        .process_external_links(false)
        .process_refs(true);
    assert!(!p.process_internal_links);
    assert!(p.create_internal_targets);
    assert!(!p.process_external_links);
    assert!(p.process_refs);
}

#[test]
fn test_store_error_kind_text() {
    assert_eq!(store_error_type_as_str(&StoreErrorKind::FileError), "File Error");
    assert_eq!(store_error_type_as_str(&StoreErrorKind::IdLocked), "ID locked");
    assert_eq!(store_error_type_as_str(&StoreErrorKind::IdNotFound), "ID not found");
    assert_eq!(store_error_type_as_str(&StoreErrorKind::OutOfMemory), "Out of Memory");
}

#[test]
fn test_store_error_new_and_accessors() {
    let e = StoreError::new(StoreErrorKind::IdNotFound, Some(String::from("no such file")));
    assert_eq!(e.err_type(), StoreErrorKind::IdNotFound);
    assert_eq!(e.cause().as_deref(), Some("no such file"));

    let bare = StoreError::new(StoreErrorKind::FileError, None);
    assert_eq!(bare.err_type(), StoreErrorKind::FileError);
    assert!(bare.cause().is_none());
}
