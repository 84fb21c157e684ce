use remote_settings_client::merge::merge_changes;
use remote_settings_client::Record;

fn rec(text: &str) -> Record {
    Record::new(serde_json::from_str(text).unwrap())
}

fn ids(records: &[Record]) -> Vec<String> {
    let mut out: Vec<String> = records.iter().map(|r| r.id().to_owned()).collect();
    out.sort();
    out
}

fn find<'a>(records: &'a [Record], id: &str) -> &'a Record {
    records.iter().find(|r| r.id() == id).unwrap()
}

#[test]
fn merge_without_overlap_is_union_of_contents() {
    let local = vec![rec(r#"{"id": "a", "last_modified": 1}"#), rec(r#"{"id": "b", "last_modified": 2}"#)];
    let changes = vec![
        rec(r#"{"id": "c", "last_modified": 3}"#),
        rec(r#"{"id": "d", "last_modified": 4, "deleted": true}"#),
    ];
    let merged = merge_changes(local, changes);
    assert_eq!(ids(&merged), vec!["a", "b", "c"]);
}

#[test]
fn merge_removes_tombstoned_record() {
    let local = vec![rec(r#"{"id": "a", "last_modified": 1}"#), rec(r#"{"id": "b", "last_modified": 2}"#)];
    let changes = vec![rec(r#"{"id": "a", "last_modified": 5, "deleted": true}"#)];
    let merged = merge_changes(local, changes);
    assert_eq!(ids(&merged), vec!["b"]);
}

#[test]
fn merge_twice_changes_nothing() {
    let local = vec![rec(r#"{"id": "a", "last_modified": 1}"#), rec(r#"{"id": "b", "last_modified": 2}"#)];
    let changes = vec![
        rec(r#"{"id": "a", "last_modified": 7, "v": "new"}"#),
        rec(r#"{"id": "b", "last_modified": 6, "deleted": true}"#),
        rec(r#"{"id": "c", "last_modified": 5}"#),
    ];
    let once = merge_changes(local, changes.clone());
    let twice = merge_changes(once.clone(), changes);
    assert_eq!(ids(&once), ids(&twice));
    for r in once.iter() {
        assert_eq!(find(&twice, r.id()), r);
    }
    assert_eq!(ids(&once), vec!["a", "c"]);
}

#[test]
fn merge_processes_changes_from_last_to_first() {
    let local = vec![rec(r#"{"id": "A", "last_modified": 10}"#)];
    let changes = vec![
        rec(r#"{"id": "A", "last_modified": 20, "field": "after"}"#),
        rec(r#"{"id": "B", "last_modified": 15, "field": "new"}"#),
        rec(r#"{"id": "A", "last_modified": 21, "deleted": true}"#),
    ];
    let merged = merge_changes(local, changes);
    assert_eq!(merged.len(), 2);
    assert_eq!(ids(&merged), vec!["A", "B"]);
    let a = find(&merged, "A");
    assert_eq!(a.last_modified(), 20);
    assert_eq!(a.get("field").unwrap().as_str(), Some("after"));
    assert_eq!(find(&merged, "B").get("field").unwrap().as_str(), Some("new"));
}

#[test]
fn merge_keeps_later_local_duplicate() {
    let local = vec![
        rec(r#"{"id": "a", "last_modified": 1, "v": "first"}"#),
        rec(r#"{"id": "a", "last_modified": 2, "v": "second"}"#),
    ];
    let merged = merge_changes(local, vec![]);
    assert_eq!(merged.len(), 1);
    assert_eq!(merged[0].get("v").unwrap().as_str(), Some("second"));
}

#[test]
fn merge_of_empty_inputs_is_empty() {
    assert!(merge_changes(vec![], vec![]).is_empty());
    let tombstone_only = vec![rec(r#"{"id": "x", "last_modified": 1, "deleted": true}"#)];
    assert!(merge_changes(vec![], tombstone_only).is_empty());
}
