use comic_harvest::record::{ComicInfo, Field, FieldValue};
use comic_harvest::wire::{collections_request, locator_request, request_body};

#[test]
fn sparse_record_lists_only_present_fields() {
    let mut r = ComicInfo::new();
    r.name = Some("X-O Manowar #1".to_string());
    r.writers = Some(vec!["Matt Kindt".to_string()]);
    r.cover_price = Some("$3.99".to_string());
    let entries = r.into_entries();
    assert_eq!(entries.len(), 3);
    assert_eq!(entries[0].0, Field::Name);
    assert_eq!(entries[1].0, Field::Writers);
    assert_eq!(entries[2].0, Field::CoverPrice);
    let back = ComicInfo::from_entries(entries);
    assert_eq!(back.name.as_deref(), Some("X-O Manowar #1"));
    assert_eq!(back.writers, Some(vec!["Matt Kindt".to_string()]));
    assert_eq!(back.cover_price.as_deref(), Some("$3.99"));
    assert!(back.id.is_none());
    assert!(back.artists.is_none());
    assert!(back.publisher.is_none());
    assert!(back.release_date.is_none());
    assert!(back.critic_review_count.is_none());
    assert!(back.user_review_count.is_none());
    assert!(back.critic_review_score.is_none());
    assert!(back.user_review_score.is_none());
}

#[test]
fn empty_record_has_no_entries() {
    assert!(ComicInfo::new().into_entries().is_empty());
}

#[test]
fn entry_of_the_wrong_kind_is_ignored() {
    let r = ComicInfo::new().set_entry(Field::Writers, FieldValue::Text("x".to_string()));
    assert!(r.writers.is_none());
    let r = ComicInfo::new().set_entry(Field::Id, FieldValue::List(vec![]));
    assert!(r.id.is_none());
    let r = ComicInfo::new().set_entry(Field::Artists, FieldValue::List(vec!["a".to_string()]));
    assert_eq!(r.artists, Some(vec!["a".to_string()]));
}

#[test]
fn request_bodies_are_compact_json() {
    assert_eq!(collections_request("valiant"), "{\"name\":\"valiant\"}");
    assert_eq!(locator_request("http://x/1"), "{\"url\":\"http://x/1\"}");
}

#[test]
fn request_body_escapes_quotes_and_backslashes() {
    assert_eq!(request_body("url", "a\"b\\c"), "{\"url\":\"a\\\"b\\\\c\"}");
    assert_eq!(request_body("url", ""), "{\"url\":\"\"}");
}
