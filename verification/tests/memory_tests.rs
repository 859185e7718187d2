use blog_rust::error::StorageError;
use blog_rust::memory::InMemoryPostRepository;
use blog_rust::post::Post;
use blog_rust::repository::PostRepository;

fn draft(title: &str, slug: &str, body: &str) -> Post {
    Post::new(title.to_string(), slug.to_string(), body.to_string())
}

fn stored(id: i32, title: &str, slug: &str, body: &str) -> Post {
    Post::with_id(id, title.to_string(), slug.to_string(), body.to_string())
}

#[test]
fn new_store_is_empty() {
    let store = InMemoryPostRepository::new();
    assert_eq!(store.len(), 0);
    assert_eq!(store.find_all(), Ok(vec![]));
    assert_eq!(InMemoryPostRepository::default().find_all(), Ok(vec![]));
}

#[test]
fn save_hands_out_identifiers_from_one() {
    let mut store = InMemoryPostRepository::new();
    assert_eq!(store.save(draft("a", "b", "c")), Ok(stored(1, "a", "b", "c")));
    assert_eq!(store.save(draft("d", "e", "f")), Ok(stored(2, "d", "e", "f")));
    assert_eq!(store.len(), 2);
}

#[test]
fn save_does_not_read_the_identifier_it_is_given() {
    let mut store = InMemoryPostRepository::new();
    assert_eq!(store.save(stored(40, "a", "b", "c")), Ok(stored(1, "a", "b", "c")));
    assert_eq!(store.find_by_id(40), Ok(None));
}

#[test]
fn saved_post_is_found_as_stored() {
    let mut store = InMemoryPostRepository::new();
    let saved = store.save(draft("Hello", "hello", "World")).unwrap();
    assert_eq!(store.find_by_id(saved.id.unwrap()), Ok(Some(saved)));
}

#[test]
fn find_by_id_of_a_never_created_id_is_none() {
    let mut store = InMemoryPostRepository::new();
    assert_eq!(store.find_by_id(1), Ok(None));
    store.save(draft("a", "b", "c")).unwrap();
    assert_eq!(store.find_by_id(2), Ok(None));
    assert_eq!(store.find_by_id(0), Ok(None));
    assert_eq!(store.find_by_id(-1), Ok(None));
    assert_eq!(store.find_by_id(i32::MAX), Ok(None));
}

#[test]
fn update_of_an_absent_id_is_none() {
    let mut store = InMemoryPostRepository::new();
    store.save(draft("a", "b", "c")).unwrap();
    assert_eq!(store.update(9, draft("x", "y", "z")), Ok(None));
    assert_eq!(store.find_all(), Ok(vec![stored(1, "a", "b", "c")]));
}

#[test]
fn update_changes_title_and_body_only() {
    let mut store = InMemoryPostRepository::new();
    store.save(draft("a", "b", "c")).unwrap();
    store.save(draft("d", "e", "f")).unwrap();
    let updated = store.update(1, stored(77, "x", "y", "z")).unwrap();
    assert_eq!(updated, Some(stored(1, "x", "b", "z")));
    assert_eq!(store.find_by_id(1), Ok(updated));
    assert_eq!(store.find_by_id(2), Ok(Some(stored(2, "d", "e", "f"))));
}

#[test]
fn delete_is_true_once_then_false() {
    let mut store = InMemoryPostRepository::new();
    store.save(draft("a", "b", "c")).unwrap();
    assert_eq!(store.delete(1), Ok(true));
    assert_eq!(store.delete(1), Ok(false));
    assert_eq!(store.find_by_id(1), Ok(None));
    assert_eq!(store.len(), 0);
}

#[test]
fn delete_of_a_never_created_id_is_false() {
    let mut store = InMemoryPostRepository::new();
    assert_eq!(store.delete(5), Ok(false));
    assert_eq!(store.delete(0), Ok(false));
}

#[test]
fn identifiers_are_not_used_twice() {
    let mut store = InMemoryPostRepository::new();
    store.save(draft("a", "b", "c")).unwrap();
    store.save(draft("d", "e", "f")).unwrap();
    assert_eq!(store.delete(2), Ok(true));
    assert_eq!(store.save(draft("g", "h", "i")), Ok(stored(3, "g", "h", "i")));
}

#[test]
fn find_all_lists_in_the_order_of_identifiers() {
    let mut store = InMemoryPostRepository::new();
    store.save(draft("a", "b", "c")).unwrap();
    store.save(draft("d", "e", "f")).unwrap();
    store.save(draft("g", "h", "i")).unwrap();
    assert_eq!(store.delete(2), Ok(true));
    assert_eq!(
        store.find_all(),
        Ok(vec![stored(1, "a", "b", "c"), stored(3, "g", "h", "i")])
    );
}

#[test]
fn slug_may_be_used_twice() {
    let mut store = InMemoryPostRepository::new();
    store.save(draft("a", "same", "c")).unwrap();
    assert_eq!(store.save(draft("d", "same", "f")), Ok(stored(2, "d", "same", "f")));
}

#[test]
fn storage_error_messages_keep_the_cause() {
    assert_eq!(
        StorageError::QueryFailed("disk full".to_string()).message(),
        "Database error: disk full"
    );
    assert_eq!(
        StorageError::TransactionAborted("locked".to_string()).message(),
        "Database error: transaction aborted: locked"
    );
    assert_eq!(
        StorageError::ConnectionAcquisitionFailed.message(),
        "Database error: no connection available"
    );
    let e = StorageError::QueryFailed("x".to_string());
    assert_eq!(e.clone(), e);
}
