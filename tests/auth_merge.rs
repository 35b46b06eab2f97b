use serde_json::Value;
use whaswapp::auth::merge_keys;

fn json(text: &str) -> Value {
    serde_json::from_str(text).unwrap()
}

#[test]
fn delete_after_insert_removes_the_item() {
    let first = merge_keys(None, &json(r#"{"keys": {"signed-pre-key-1": {"pub": "abc"}}}"#));
    assert_eq!(first, json(r#"{"keys": {"signed-pre-key-1": {"pub": "abc"}}}"#));
    let second = merge_keys(Some(first), &json(r#"{"keys": {"signed-pre-key-1": null}}"#));
    assert!(second["keys"].as_object().unwrap().get("signed-pre-key-1").is_none());
    assert_eq!(second, json(r#"{"keys": {}}"#));
}

#[test]
fn merging_the_same_update_twice_is_idempotent() {
    let update = json(r#"{"keys": {"session-1": {"v": 1}}}"#);
    let once = merge_keys(None, &update);
    let twice = merge_keys(Some(once.clone()), &update);
    assert_eq!(once, twice);
    assert_eq!(twice, json(r#"{"keys": {"session-1": {"v": 1}}}"#));
}

#[test]
fn categories_not_in_the_update_are_unchanged() {
    let stored = json(r#"{"pre-key": {"1": {"k": "a"}, "2": [1, 2]}, "session": {"s": 5}, "odd": 7}"#);
    let out = merge_keys(Some(stored.clone()), &json(r#"{"session": {"s": null, "t": true}}"#));
    assert_eq!(out["pre-key"], stored["pre-key"]);
    assert_eq!(out["odd"], stored["odd"]);
    assert_eq!(out["session"], json(r#"{"t": true}"#));
}

#[test]
fn delete_of_an_absent_id_is_a_noop() {
    let stored = json(r#"{"keys": {"a": 1}}"#);
    let out = merge_keys(Some(stored.clone()), &json(r#"{"keys": {"missing": null}}"#));
    assert_eq!(out, stored);
    let fresh = merge_keys(None, &json(r#"{"keys": {"missing": null}}"#));
    assert_eq!(fresh, json(r#"{"keys": {}}"#));
}

#[test]
fn upsert_overwrites_and_inserts() {
    let stored = json(r#"{"keys": {"a": 1, "b": 2}}"#);
    let out = merge_keys(Some(stored), &json(r#"{"keys": {"a": {"x": 0}, "c": 3}}"#));
    assert_eq!(out, json(r#"{"keys": {"a": {"x": 0}, "b": 2, "c": 3}}"#));
}

#[test]
fn new_category_is_created_even_for_a_non_object_update() {
    let out = merge_keys(Some(json(r#"{}"#)), &json(r#"{"app-state": 5}"#));
    assert_eq!(out, json(r#"{"app-state": {}}"#));
}

#[test]
fn stored_non_object_category_is_left_alone() {
    let stored = json(r#"{"keys": "opaque"}"#);
    let out = merge_keys(Some(stored.clone()), &json(r#"{"keys": {"a": 1}}"#));
    assert_eq!(out, stored);
}

#[test]
fn non_object_update_or_snapshot_changes_nothing() {
    let stored = json(r#"{"keys": {"a": 1}}"#);
    assert_eq!(merge_keys(Some(stored.clone()), &json("[1, 2]")), stored);
    assert_eq!(merge_keys(None, &json("null")), json("{}"));
    assert_eq!(merge_keys(Some(json("42")), &json(r#"{"keys": {"a": 1}}"#)), json("42"));
}
