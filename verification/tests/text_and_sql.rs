use goal_intent_data::db;
use goal_intent_data::text::str_contains_substring;

#[test]
fn substring_basic() {
    assert!(str_contains_substring("hello world", "lo wo"));
    assert!(str_contains_substring("hello world", "hello"));
    assert!(str_contains_substring("hello world", "world"));
    assert!(!str_contains_substring("hello world", "worlds"));
    assert!(!str_contains_substring("hello", "hello world"));
}

#[test]
fn substring_empty_cases() {
    assert!(str_contains_substring("", ""));
    assert!(str_contains_substring("abc", ""));
    assert!(!str_contains_substring("", "a"));
}

#[test]
fn substring_is_case_sensitive() {
    assert!(!str_contains_substring("Hello", "hello"));
    assert!(str_contains_substring("Hello", "Hell"));
}

#[test]
fn substring_multibyte() {
    assert!(str_contains_substring("gruner Apfel \u{1F34F}", "\u{1F34F}"));
    assert!(str_contains_substring("na\u{ef}ve", "a\u{ef}ve"));
    assert!(!str_contains_substring("na\u{ef}ve", "naive"));
}

#[test]
fn add_sql_text() {
    let sql = db::add_sql();
    assert_eq!(
        sql,
        "INSERT INTO goal_intent_data(creation_time, creator_user_id, goal_intent_id, name, active) VALUES ($1, $2, $3, $4, $5) RETURNING goal_intent_data_id"
    );
}

#[test]
fn get_by_id_sql_text() {
    assert_eq!(
        db::get_by_id_sql(),
        "SELECT * FROM goal_intent_data WHERE goal_intent_data_id=$1"
    );
}

#[test]
fn query_sql_without_only_recent() {
    let sql = db::query_sql(false);
    assert!(!sql.contains("INNER JOIN"));
    assert!(sql.starts_with("SELECT gid.* FROM goal_intent_data gid WHERE"));
    assert!(sql.contains("($1::bigint IS NULL OR gid.goal_intent_data_id = $1)"));
    assert!(sql.contains("($8::text IS NULL OR position($8 in gid.name) > 0)"));
    assert!(sql.ends_with("ORDER BY gid.goal_intent_data_id LIMIT $11 OFFSET $10"));
}

#[test]
fn query_sql_with_only_recent() {
    let sql = db::query_sql(true);
    assert!(sql.contains(
        "INNER JOIN (SELECT max(goal_intent_data_id) id FROM goal_intent_data GROUP BY goal_intent_id) maxids ON maxids.id = gid.goal_intent_data_id"
    ));
    assert!(sql.ends_with("ORDER BY gid.goal_intent_data_id LIMIT $11 OFFSET $10"));
}
