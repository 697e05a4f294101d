use goal_intent_data::model::{GoalIntentData, GoalIntentDataViewProps};
use goal_intent_data::store::GoalIntentDataStore;

fn no_filters() -> GoalIntentDataViewProps {
    GoalIntentDataViewProps {
        goal_intent_data_id: None,
        creation_time: None,
        min_creation_time: None,
        max_creation_time: None,
        creator_user_id: None,
        goal_intent_id: None,
        name: None,
        partial_name: None,
        active: None,
        only_recent: false,
        offset: 0,
        limit: usize::MAX,
    }
}

fn records_equal(a: &GoalIntentData, b: &GoalIntentData) -> bool {
    a.goal_intent_data_id == b.goal_intent_data_id
        && a.creation_time == b.creation_time
        && a.creator_user_id == b.creator_user_id
        && a.goal_intent_id == b.goal_intent_id
        && a.name == b.name
        && a.active == b.active
}

#[test]
fn insert_then_lookup_round_trip() {
    let mut store = GoalIntentDataStore::new();
    let added = store.add(1000, 7, 3, String::from("first"), true);
    assert!(added.goal_intent_data_id > 0);
    let found = store.get_by_goal_intent_data_id(added.goal_intent_data_id);
    let found = found.expect("the inserted row must be found");
    assert!(records_equal(&added, &found));
}

#[test]
fn lookup_missing_returns_none() {
    let store = GoalIntentDataStore::new();
    assert!(store.get_by_goal_intent_data_id(42).is_none());

    let mut store = GoalIntentDataStore::new();
    let added = store.add(1000, 1, 1, String::from("x"), false);
    assert!(store.get_by_goal_intent_data_id(added.goal_intent_data_id + 1).is_none());
    assert!(store.get_by_goal_intent_data_id(0).is_none());
    assert!(store.get_by_goal_intent_data_id(-5).is_none());
}

#[test]
fn generated_ids_ascend_from_one() {
    let mut store = GoalIntentDataStore::new();
    let a = store.add(10, 1, 1, String::from("a"), true);
    let b = store.add(20, 1, 1, String::from("b"), true);
    let c = store.add(30, 1, 2, String::from("c"), true);
    assert_eq!(a.goal_intent_data_id, 1);
    assert_eq!(b.goal_intent_data_id, 2);
    assert_eq!(c.goal_intent_data_id, 3);
}

#[test]
fn creation_time_is_kept() {
    let mut store = GoalIntentDataStore::new();
    let added = store.add(123456789, 1, 1, String::from("a"), true);
    assert_eq!(added.creation_time, 123456789);
    let found = store.get_by_goal_intent_data_id(added.goal_intent_data_id).unwrap();
    assert_eq!(found.creation_time, 123456789);
}

#[test]
fn query_no_filters_returns_all_in_id_order() {
    let mut store = GoalIntentDataStore::new();
    store.add(10, 1, 100, String::from("a"), true);
    store.add(20, 2, 200, String::from("b"), false);
    store.add(30, 3, 300, String::from("c"), true);
    let rows = store.query(&no_filters());
    assert_eq!(rows.len(), 3);
    assert_eq!(rows[0].goal_intent_data_id, 1);
    assert_eq!(rows[1].goal_intent_data_id, 2);
    assert_eq!(rows[2].goal_intent_data_id, 3);
}

#[test]
fn query_on_empty_store_is_empty() {
    let store = GoalIntentDataStore::new();
    assert!(store.query(&no_filters()).is_empty());
    let mut recent = no_filters();
    recent.only_recent = true;
    assert!(store.query(&recent).is_empty());
}

#[test]
fn pagination_skips_offset_and_keeps_limit() {
    let mut store = GoalIntentDataStore::new();
    for k in 0..5 {
        store.add(100 + k, 1, 10, format!("snapshot {}", k), true);
    }
    let mut props = no_filters();
    props.offset = 2;
    props.limit = 2;
    let rows = store.query(&props);
    assert_eq!(rows.len(), 2);
    assert_eq!(rows[0].goal_intent_data_id, 3);
    assert_eq!(rows[1].goal_intent_data_id, 4);
}

#[test]
fn pagination_offset_past_end_is_empty() {
    let mut store = GoalIntentDataStore::new();
    store.add(10, 1, 1, String::from("a"), true);
    store.add(20, 1, 1, String::from("b"), true);
    let mut props = no_filters();
    props.offset = 5;
    assert!(store.query(&props).is_empty());
}

#[test]
fn pagination_limit_zero_is_empty() {
    let mut store = GoalIntentDataStore::new();
    store.add(10, 1, 1, String::from("a"), true);
    let mut props = no_filters();
    props.limit = 0;
    assert!(store.query(&props).is_empty());
}

#[test]
fn pagination_limit_truncates() {
    let mut store = GoalIntentDataStore::new();
    store.add(10, 1, 1, String::from("a"), true);
    store.add(20, 1, 1, String::from("b"), true);
    store.add(30, 1, 1, String::from("c"), true);
    let mut props = no_filters();
    props.limit = 2;
    let rows = store.query(&props);
    assert_eq!(rows.len(), 2);
    assert_eq!(rows[0].goal_intent_data_id, 1);
    assert_eq!(rows[1].goal_intent_data_id, 2);
}

#[test]
fn only_recent_keeps_latest_snapshot_per_goal_intent() {
    let mut store = GoalIntentDataStore::new();
    store.add(10, 1, 10, String::from("ten v1"), true);
    store.add(20, 1, 10, String::from("ten v2"), true);
    store.add(30, 1, 10, String::from("ten v3"), false);
    store.add(40, 2, 20, String::from("twenty v1"), true);
    store.add(50, 2, 20, String::from("twenty v2"), true);
    let mut props = no_filters();
    props.only_recent = true;
    let rows = store.query(&props);
    assert_eq!(rows.len(), 2);
    assert_eq!(rows[0].goal_intent_data_id, 3);
    assert_eq!(rows[0].name, "ten v3");
    assert!(!rows[0].active);
    assert_eq!(rows[1].goal_intent_data_id, 5);
    assert_eq!(rows[1].name, "twenty v2");
}

#[test]
fn insert_lookup_query_scenario() {
    let mut store = GoalIntentDataStore::new();
    let added = store.add(1700000000000, 1, 10, String::from("Run 5k"), true);
    assert!(added.goal_intent_data_id > 0);
    assert_eq!(added.creator_user_id, 1);
    assert_eq!(added.goal_intent_id, 10);
    assert_eq!(added.name, "Run 5k");
    assert!(added.active);

    let found = store.get_by_goal_intent_data_id(added.goal_intent_data_id).unwrap();
    assert!(records_equal(&added, &found));

    let mut props = no_filters();
    props.goal_intent_id = Some(10);
    props.only_recent = true;
    let rows = store.query(&props);
    assert_eq!(rows.len(), 1);
    assert!(records_equal(&added, &rows[0]));
}

#[test]
fn partial_name_selects_substring_matches() {
    let mut store = GoalIntentDataStore::new();
    store.add(10, 1, 1, String::from("abcdef"), true);
    store.add(20, 1, 2, String::from("xabcy"), true);
    store.add(30, 1, 3, String::from("xyz"), true);
    store.add(40, 1, 4, String::from("ab"), true);
    let mut props = no_filters();
    props.partial_name = Some(String::from("abc"));
    let rows = store.query(&props);
    assert_eq!(rows.len(), 2);
    assert_eq!(rows[0].name, "abcdef");
    assert_eq!(rows[1].name, "xabcy");
}

#[test]
fn partial_name_empty_matches_every_row() {
    let mut store = GoalIntentDataStore::new();
    store.add(10, 1, 1, String::from(""), true);
    store.add(20, 1, 2, String::from("anything"), true);
    let mut props = no_filters();
    props.partial_name = Some(String::from(""));
    assert_eq!(store.query(&props).len(), 2);
}

#[test]
fn partial_name_longer_than_name_matches_nothing() {
    let mut store = GoalIntentDataStore::new();
    store.add(10, 1, 1, String::from("ab"), true);
    let mut props = no_filters();
    props.partial_name = Some(String::from("abc"));
    assert!(store.query(&props).is_empty());
}

#[test]
fn exact_name_filter() {
    let mut store = GoalIntentDataStore::new();
    store.add(10, 1, 1, String::from("alpha"), true);
    store.add(20, 1, 2, String::from("alphabet"), true);
    let mut props = no_filters();
    props.name = Some(String::from("alpha"));
    let rows = store.query(&props);
    assert_eq!(rows.len(), 1);
    assert_eq!(rows[0].goal_intent_data_id, 1);
}

#[test]
fn active_filter() {
    let mut store = GoalIntentDataStore::new();
    store.add(10, 1, 1, String::from("a"), true);
    store.add(20, 1, 2, String::from("b"), false);
    store.add(30, 1, 3, String::from("c"), true);
    let mut props = no_filters();
    props.active = Some(false);
    let rows = store.query(&props);
    assert_eq!(rows.len(), 1);
    assert_eq!(rows[0].goal_intent_data_id, 2);
}

#[test]
fn creation_time_filters() {
    let mut store = GoalIntentDataStore::new();
    store.add(100, 1, 1, String::from("a"), true);
    store.add(200, 1, 2, String::from("b"), true);
    store.add(300, 1, 3, String::from("c"), true);

    let mut exact = no_filters();
    exact.creation_time = Some(200);
    let rows = store.query(&exact);
    assert_eq!(rows.len(), 1);
    assert_eq!(rows[0].goal_intent_data_id, 2);

    let mut range = no_filters();
    range.min_creation_time = Some(150);
    range.max_creation_time = Some(250);
    let rows = store.query(&range);
    assert_eq!(rows.len(), 1);
    assert_eq!(rows[0].goal_intent_data_id, 2);

    let mut min_only = no_filters();
    min_only.min_creation_time = Some(200);
    assert_eq!(store.query(&min_only).len(), 2);
}

#[test]
fn id_and_creator_and_intent_filters() {
    let mut store = GoalIntentDataStore::new();
    store.add(10, 1, 100, String::from("a"), true);
    store.add(20, 2, 100, String::from("b"), true);
    store.add(30, 2, 200, String::from("c"), true);

    let mut by_id = no_filters();
    by_id.goal_intent_data_id = Some(2);
    let rows = store.query(&by_id);
    assert_eq!(rows.len(), 1);
    assert_eq!(rows[0].name, "b");

    let mut by_creator = no_filters();
    by_creator.creator_user_id = Some(2);
    assert_eq!(store.query(&by_creator).len(), 2);

    let mut by_intent = no_filters();
    by_intent.goal_intent_id = Some(100);
    assert_eq!(store.query(&by_intent).len(), 2);
}

#[test]
fn only_recent_combines_with_other_filters() {
    let mut store = GoalIntentDataStore::new();
    store.add(10, 1, 10, String::from("v1"), true);
    store.add(20, 1, 10, String::from("v2"), false);
    store.add(30, 1, 20, String::from("w1"), true);
    // The newest snapshot of intent 10 is inactive, so an active-only query
    // under only_recent skips intent 10 entirely rather than falling back to
    // an older snapshot.
    let mut props = no_filters();
    props.only_recent = true;
    props.active = Some(true);
    let rows = store.query(&props);
    assert_eq!(rows.len(), 1);
    assert_eq!(rows[0].goal_intent_data_id, 3);
}
