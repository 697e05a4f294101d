//! The database-facing edge of the repository: the exact SQL statements the
//! operations issue, and the mapping from a result row back into a record.
//!
//! The statements here bind every optional filter as a nullable parameter and
//! guard each comparison with an explicit `IS NULL` test, so an unset filter
//! imposes no constraint (a plain equality against NULL never matches).

use vstd::prelude::*;
use crate::model::GoalIntentData;

verus! {

/// Declares `tokio_postgres::Row`, one row of a query's result set, so that
/// it can stand in signatures; the row's contents are read only through the
/// trusted getters below.
#[verifier::external_type_specification]
#[verifier::external_body]
pub struct ExRow(tokio_postgres::Row);

/// Declares `tokio_postgres::Error`, the database client's error type; it is
/// carried through unmodified, never inspected.
#[verifier::external_type_specification]
#[verifier::external_body]
pub struct ExPgError(tokio_postgres::Error);

/// A storage failure reported by the database client, passed through to the
/// caller unmodified.
pub struct StorageError {
    pub source: tokio_postgres::Error,
}

/// The value of the named column of a row, decoded as a 64-bit integer;
/// `None` when the column is absent, holds NULL, or is not of that type.
pub uninterp spec fn row_i64_column(row: tokio_postgres::Row, col: Seq<char>) -> Option<i64>;

/// The value of the named column of a row, decoded as text; `None` when the
/// column is absent, holds NULL, or is not of that type.
pub uninterp spec fn row_text_column(row: tokio_postgres::Row, col: Seq<char>) -> Option<Seq<char>>;

/// The value of the named column of a row, decoded as a boolean; `None` when
/// the column is absent, holds NULL, or is not of that type.
pub uninterp spec fn row_bool_column(row: tokio_postgres::Row, col: Seq<char>) -> Option<bool>;

/// Relies on `tokio_postgres::Row::try_get` at type `i64`: the named
/// column's decoded value, or an error when the column is absent, holds
/// NULL, or is of another type; it depends on the row and the name alone
/// and never panics.
#[verifier::external_body]
fn row_try_get_i64(row: &tokio_postgres::Row, col: &str) -> (r: Result<i64, tokio_postgres::Error>)
    ensures
        match r {
            Ok(v) => row_i64_column(*row, col@) == Some(v),
            Err(_) => row_i64_column(*row, col@) is None,
        },
{
    row.try_get(col)
}

/// Relies on `tokio_postgres::Row::try_get` at type `String`: the named
/// column's decoded value, or an error when the column is absent, holds
/// NULL, or is of another type; it depends on the row and the name alone
/// and never panics.
#[verifier::external_body]
fn row_try_get_string(row: &tokio_postgres::Row, col: &str) -> (r: Result<
    String,
    tokio_postgres::Error,
>)
    ensures
        match r {
            Ok(v) => row_text_column(*row, col@) == Some(v@),
            Err(_) => row_text_column(*row, col@) is None,
        },
{
    row.try_get(col)
}

/// Relies on `tokio_postgres::Row::try_get` at type `bool`: the named
/// column's decoded value, or an error when the column is absent, holds
/// NULL, or is of another type; it depends on the row and the name alone
/// and never panics.
#[verifier::external_body]
fn row_try_get_bool(row: &tokio_postgres::Row, col: &str) -> (r: Result<
    bool,
    tokio_postgres::Error,
>)
    ensures
        match r {
            Ok(v) => row_bool_column(*row, col@) == Some(v),
            Err(_) => row_bool_column(*row, col@) is None,
        },
{
    row.try_get(col)
}

impl GoalIntentData {
    /// Maps one result row — expected from `SELECT *` against
    /// `goal_intent_data`, or any result set with those column names and
    /// types — into a record.  Succeeds exactly when every column is present
    /// and decodes at its expected type; there is no defaulting and no
    /// coercion.
    pub fn from_row(row: &tokio_postgres::Row) -> (r: Result<GoalIntentData, StorageError>)
        ensures
            r is Ok <==> {
                &&& row_i64_column(*row, "goal_intent_data_id"@) is Some
                &&& row_i64_column(*row, "creation_time"@) is Some
                &&& row_i64_column(*row, "creator_user_id"@) is Some
                &&& row_i64_column(*row, "goal_intent_id"@) is Some
                &&& row_text_column(*row, "name"@) is Some
                &&& row_bool_column(*row, "active"@) is Some
            },
            r matches Ok(g) ==> {
                &&& row_i64_column(*row, "goal_intent_data_id"@) == Some(g.goal_intent_data_id)
                &&& row_i64_column(*row, "creation_time"@) == Some(g.creation_time)
                &&& row_i64_column(*row, "creator_user_id"@) == Some(g.creator_user_id)
                &&& row_i64_column(*row, "goal_intent_id"@) == Some(g.goal_intent_id)
                &&& row_text_column(*row, "name"@) == Some(g@.name)
                &&& row_bool_column(*row, "active"@) == Some(g.active)
            },
    {
        let goal_intent_data_id = match row_try_get_i64(row, "goal_intent_data_id") {
            Ok(v) => v,
            Err(e) => {
                return Err(StorageError { source: e });
            },
        };
        let creation_time = match row_try_get_i64(row, "creation_time") {
            Ok(v) => v,
            Err(e) => {
                return Err(StorageError { source: e });
            },
        };
        let creator_user_id = match row_try_get_i64(row, "creator_user_id") {
            Ok(v) => v,
            Err(e) => {
                return Err(StorageError { source: e });
            },
        };
        let goal_intent_id = match row_try_get_i64(row, "goal_intent_id") {
            Ok(v) => v,
            Err(e) => {
                return Err(StorageError { source: e });
            },
        };
        let name = match row_try_get_string(row, "name") {
            Ok(v) => v,
            Err(e) => {
                return Err(StorageError { source: e });
            },
        };
        let active = match row_try_get_bool(row, "active") {
            Ok(v) => v,
            Err(e) => {
                return Err(StorageError { source: e });
            },
        };
        Ok(
            GoalIntentData {
                goal_intent_data_id,
                creation_time,
                creator_user_id,
                goal_intent_id,
                name,
                active,
            },
        )
    }
}

/// The single-row insert, binding creation time, creator, goal intent, name
/// and active flag; storage generates and returns the primary key.
pub open spec fn spec_add_sql() -> Seq<char> {
    "INSERT INTO goal_intent_data(creation_time, creator_user_id, goal_intent_id, name, active) VALUES ($1, $2, $3, $4, $5) RETURNING goal_intent_data_id"@
}

/// The insert statement issued by the add operation.
pub fn add_sql() -> (r: &'static str)
    ensures
        r@ == spec_add_sql(),
{
    "INSERT INTO goal_intent_data(creation_time, creator_user_id, goal_intent_id, name, active) VALUES ($1, $2, $3, $4, $5) RETURNING goal_intent_data_id"
}

/// The point lookup by primary key.
pub open spec fn spec_get_by_id_sql() -> Seq<char> {
    "SELECT * FROM goal_intent_data WHERE goal_intent_data_id=$1"@
}

/// The statement issued by the point-lookup operation.
pub fn get_by_id_sql() -> (r: &'static str)
    ensures
        r@ == spec_get_by_id_sql(),
{
    "SELECT * FROM goal_intent_data WHERE goal_intent_data_id=$1"
}

/// The filtered query.  Parameters 1-9 are the optional filters (NULL when
/// unset, so the guarded predicate imposes no constraint), 10 the offset and
/// 11 the limit; with `only_recent` the statement joins a per-goal-intent
/// maximum-id subquery so only the newest snapshot of each goal intent
/// remains.  Rows come back in ascending primary-key order.
pub open spec fn spec_query_sql(only_recent: bool) -> Seq<char> {
    if only_recent {
        "SELECT gid.* FROM goal_intent_data gid INNER JOIN (SELECT max(goal_intent_data_id) id FROM goal_intent_data GROUP BY goal_intent_id) maxids ON maxids.id = gid.goal_intent_data_id WHERE ($1::bigint IS NULL OR gid.goal_intent_data_id = $1) AND ($2::bigint IS NULL OR gid.creation_time = $2) AND ($3::bigint IS NULL OR gid.creation_time >= $3) AND ($4::bigint IS NULL OR gid.creation_time <= $4) AND ($5::bigint IS NULL OR gid.creator_user_id = $5) AND ($6::bigint IS NULL OR gid.goal_intent_id = $6) AND ($7::text IS NULL OR gid.name = $7) AND ($8::text IS NULL OR position($8 in gid.name) > 0) AND ($9::bool IS NULL OR gid.active = $9) ORDER BY gid.goal_intent_data_id LIMIT $11 OFFSET $10"@
    } else {
        "SELECT gid.* FROM goal_intent_data gid WHERE ($1::bigint IS NULL OR gid.goal_intent_data_id = $1) AND ($2::bigint IS NULL OR gid.creation_time = $2) AND ($3::bigint IS NULL OR gid.creation_time >= $3) AND ($4::bigint IS NULL OR gid.creation_time <= $4) AND ($5::bigint IS NULL OR gid.creator_user_id = $5) AND ($6::bigint IS NULL OR gid.goal_intent_id = $6) AND ($7::text IS NULL OR gid.name = $7) AND ($8::text IS NULL OR position($8 in gid.name) > 0) AND ($9::bool IS NULL OR gid.active = $9) ORDER BY gid.goal_intent_data_id LIMIT $11 OFFSET $10"@
    }
}

/// The statement issued by the query operation: with `only_recent` the one
/// with the maximum-id join, without it the plain filtered scan.
pub fn query_sql(only_recent: bool) -> (r: &'static str)
    ensures
        r@ == spec_query_sql(only_recent),
{
    if only_recent {
        "SELECT gid.* FROM goal_intent_data gid INNER JOIN (SELECT max(goal_intent_data_id) id FROM goal_intent_data GROUP BY goal_intent_id) maxids ON maxids.id = gid.goal_intent_data_id WHERE ($1::bigint IS NULL OR gid.goal_intent_data_id = $1) AND ($2::bigint IS NULL OR gid.creation_time = $2) AND ($3::bigint IS NULL OR gid.creation_time >= $3) AND ($4::bigint IS NULL OR gid.creation_time <= $4) AND ($5::bigint IS NULL OR gid.creator_user_id = $5) AND ($6::bigint IS NULL OR gid.goal_intent_id = $6) AND ($7::text IS NULL OR gid.name = $7) AND ($8::text IS NULL OR position($8 in gid.name) > 0) AND ($9::bool IS NULL OR gid.active = $9) ORDER BY gid.goal_intent_data_id LIMIT $11 OFFSET $10"
    } else {
        "SELECT gid.* FROM goal_intent_data gid WHERE ($1::bigint IS NULL OR gid.goal_intent_data_id = $1) AND ($2::bigint IS NULL OR gid.creation_time = $2) AND ($3::bigint IS NULL OR gid.creation_time >= $3) AND ($4::bigint IS NULL OR gid.creation_time <= $4) AND ($5::bigint IS NULL OR gid.creator_user_id = $5) AND ($6::bigint IS NULL OR gid.goal_intent_id = $6) AND ($7::text IS NULL OR gid.name = $7) AND ($8::text IS NULL OR position($8 in gid.name) > 0) AND ($9::bool IS NULL OR gid.active = $9) ORDER BY gid.goal_intent_data_id LIMIT $11 OFFSET $10"
    }
}

} // verus!
