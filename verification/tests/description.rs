use shipit::compose::{compose, finalize_description};
use shipit::repo::CommitRecord;

const TRAILER: &str = "\n\n\n*This request was opened by Shipit* \u{1F6A2}";

fn record(message: &str, id: &str) -> CommitRecord {
    CommitRecord { id: id.to_string(), message: message.to_string() }
}

#[test]
fn empty_delta_composes_to_nothing() {
    let records: Vec<CommitRecord> = vec![];
    assert!(compose(&records).is_none());
}

#[test]
fn one_record_is_message_space_id() {
    let records = vec![record("fifth", "c5")];
    assert_eq!(compose(&records).unwrap(), "fifth c5");
}

#[test]
fn records_join_with_commas() {
    let records = vec![record("fifth", "c5"), record("fourth", "c4")];
    assert_eq!(compose(&records).unwrap(), "fifth c5,fourth c4");
}

#[test]
fn composition_is_deterministic() {
    let records = vec![record("fifth", "c5"), record("fourth", "c4"), record("third", "c3")];
    let once = compose(&records).unwrap();
    let twice = compose(&records).unwrap();
    assert_eq!(once, twice);
}

#[test]
fn trailer_is_appended_verbatim() {
    let done = finalize_description("fifth c5,fourth c4".to_string());
    assert_eq!(done, format!("fifth c5,fourth c4{}", TRAILER));
}

#[test]
fn trailer_appears_exactly_once_without_rewrite() {
    let done = finalize_description("fifth c5,fourth c4".to_string());
    assert_eq!(done.matches(TRAILER).count(), 1);
}

#[test]
fn trailer_appears_exactly_once_after_rewrite() {
    // The summarizer's text replaces the raw description; the trailer still
    // enters only afterwards, once.
    let done = finalize_description("## New features\n- fifth c5".to_string());
    assert_eq!(done.matches(TRAILER).count(), 1);
    assert!(done.ends_with(TRAILER));
}
