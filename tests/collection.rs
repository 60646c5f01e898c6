use temporal_tui::collection::PaginatedCollection;

#[test]
fn replace_drops_every_earlier_row() {
    let mut c: PaginatedCollection<u32> = PaginatedCollection::new();
    c.replace(vec![1, 2, 3], b"tok".to_vec());
    c.replace(vec![7], b"next".to_vec());
    assert_eq!(c.rows(), &vec![7]);
    assert_eq!(c.cursor(), Some(&b"next".to_vec()));
    assert!(!c.is_exhausted());
}

#[test]
fn replace_with_empty_token_is_exhausted() {
    let mut c: PaginatedCollection<u32> = PaginatedCollection::new();
    c.replace(vec![1], Vec::new());
    assert!(c.is_exhausted());
    assert_eq!(c.cursor(), None);
}

#[test]
fn append_keeps_order_and_adds_after() {
    let mut c: PaginatedCollection<&str> = PaginatedCollection::new();
    c.replace(vec!["a", "b"], b"t1".to_vec());
    c.append(vec!["c", "d"], b"t2".to_vec());
    assert_eq!(c.rows(), &vec!["a", "b", "c", "d"]);
    assert_eq!(c.len(), 4);
    assert_eq!(c.get(2), Some(&"c"));
    assert_eq!(c.get(4), None);
    assert!(!c.is_exhausted());
    c.append(Vec::new(), Vec::new());
    assert_eq!(c.rows(), &vec!["a", "b", "c", "d"]);
    assert!(c.is_exhausted());
}

#[test]
fn new_collection_is_empty() {
    let c: PaginatedCollection<u8> = PaginatedCollection::new();
    assert!(c.is_empty());
    assert!(c.is_exhausted());
}
