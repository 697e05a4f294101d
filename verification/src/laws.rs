//! Laws of the repository: properties that relate insert, lookup and query,
//! stated over the same spec functions the operations' contracts use.

use vstd::prelude::*;
use crate::model::{GoalIntentDataView, QueryFilterView, matches_filters};
use crate::seq_util::{lemma_filter_all, lemma_filter_elem_index, lemma_filter_push};
use crate::store::{is_latest_snapshot, selected_pred, sorted_by_id, spec_get, spec_page,
    spec_query, spec_selected, wf_rows};
use crate::text::contains_substring;

verus! {

/// No filter of `p` is set.
pub open spec fn unfiltered(p: QueryFilterView) -> bool {
    &&& p.goal_intent_data_id is None
    &&& p.creation_time is None
    &&& p.min_creation_time is None
    &&& p.max_creation_time is None
    &&& p.creator_user_id is None
    &&& p.goal_intent_id is None
    &&& p.name is None
    &&& p.partial_name is None
    &&& p.active is None
}

/// Only the partial-name filter of `p` is set.
pub open spec fn only_partial_name(p: QueryFilterView) -> bool {
    &&& p.goal_intent_data_id is None
    &&& p.creation_time is None
    &&& p.min_creation_time is None
    &&& p.max_creation_time is None
    &&& p.creator_user_id is None
    &&& p.goal_intent_id is None
    &&& p.name is None
    &&& p.partial_name is Some
    &&& p.active is None
}

/// Pagination of `p` is wide open: nothing is skipped and the limit cannot
/// cut the result of a query over `rows` short.
pub open spec fn unpaginated(p: QueryFilterView, rows: Seq<GoalIntentDataView>) -> bool {
    p.offset == 0 && rows.len() <= p.limit
}

/// Law: a row just inserted into a well-formed table is exactly what a point
/// lookup on its id returns.
pub proof fn lemma_insert_then_lookup(rows: Seq<GoalIntentDataView>, r: GoalIntentDataView)
    requires
        wf_rows(rows.push(r)),
    ensures
        spec_get(rows.push(r), r.goal_intent_data_id) == Some(r),
{
    let all = rows.push(r);
    let last = all.len() - 1;
    assert(all[last].goal_intent_data_id == r.goal_intent_data_id);
    let i = choose|i: int|
        0 <= i < all.len() && #[trigger] all[i].goal_intent_data_id == r.goal_intent_data_id;
    assert(i == last) by {
        if i < last {
            assert(all[i].goal_intent_data_id < all[last].goal_intent_data_id);
        }
    }
}

/// Law: a point lookup for an id no row holds returns `None`; absence is
/// never an error (the lookup has no error outcome at all).
pub proof fn lemma_lookup_absent(rows: Seq<GoalIntentDataView>, id: int)
    requires
        forall|i: int| 0 <= i < rows.len() ==> #[trigger] rows[i].goal_intent_data_id != id,
    ensures
        spec_get(rows, id) is None,
{
}

/// Filtering keeps ascending id order.
proof fn lemma_filter_sorted(
    rows: Seq<GoalIntentDataView>,
    pred: spec_fn(GoalIntentDataView) -> bool,
)
    requires
        sorted_by_id(rows),
    ensures
        sorted_by_id(rows.filter(pred)),
    decreases rows.len(),
{
    if rows.len() > 0 {
        let d = rows.drop_last();
        assert(sorted_by_id(d)) by {
            assert(forall|i: int| 0 <= i < d.len() ==> d[i] == rows[i]);
        }
        lemma_filter_sorted(d, pred);
        assert(d.push(rows.last()) =~= rows);
        lemma_filter_push(d, pred, rows.last());
        if pred(rows.last()) {
            let fd = d.filter(pred);
            assert forall|i: int| 0 <= i < fd.len() implies fd[i].goal_intent_data_id
                < rows.last().goal_intent_data_id by {
                lemma_filter_elem_index(d, pred, i);
                let j = choose|j: int| 0 <= j < d.len() && d[j] == fd[i];
                assert(d[j] == rows[j]);
                assert(rows[j].goal_intent_data_id < rows[rows.len() - 1].goal_intent_data_id);
            }
            assert(rows.filter(pred) == fd.push(rows.last()));
            assert forall|i: int, j: int|
                0 <= i < j < rows.filter(pred).len() implies rows.filter(
                pred,
            )[i].goal_intent_data_id < rows.filter(pred)[j].goal_intent_data_id by {
                if j < fd.len() {
                    assert(fd[i].goal_intent_data_id < fd[j].goal_intent_data_id);
                }
            }
        }
    }
}

/// Law: every query result stands in ascending id order.
pub proof fn lemma_query_sorted(rows: Seq<GoalIntentDataView>, p: QueryFilterView)
    requires
        wf_rows(rows),
        0 <= p.offset,
        0 <= p.limit,
    ensures
        sorted_by_id(spec_query(rows, p)),
{
    let pred = selected_pred(rows, p);
    lemma_filter_sorted(rows, pred);
    let f = rows.filter(pred);
    let q = spec_query(rows, p);
    assert forall|i: int, j: int| 0 <= i < j < q.len() implies q[i].goal_intent_data_id
        < q[j].goal_intent_data_id by {
        let start = if p.offset <= f.len() {
            p.offset
        } else {
            f.len() as int
        };
        assert(q[i] == f[start + i]);
        assert(q[j] == f[start + j]);
    }
}

/// Law: with every filter unset and `only_recent` false, the query returns
/// all rows, in ascending id order, with offset and limit applied after
/// ordering.
pub proof fn lemma_query_unfiltered(rows: Seq<GoalIntentDataView>, p: QueryFilterView)
    requires
        wf_rows(rows),
        unfiltered(p),
        !p.only_recent,
    ensures
        spec_query(rows, p) == spec_page(rows, p.offset, p.limit),
{
    let pred = selected_pred(rows, p);
    assert forall|i: int| 0 <= i < rows.len() implies pred(#[trigger] rows[i]) by {
        assert(matches_filters(p, rows[i]));
    }
    lemma_filter_all(rows, pred);
}

/// Law: with pagination wide open, the query returns exactly the rows its
/// selection predicate keeps — every set filter passes and, under
/// `only_recent`, the row is the newest snapshot of its goal intent.
pub proof fn lemma_query_membership(
    rows: Seq<GoalIntentDataView>,
    p: QueryFilterView,
    r: GoalIntentDataView,
)
    requires
        wf_rows(rows),
        unpaginated(p, rows),
    ensures
        spec_query(rows, p).contains(r) <==> (rows.contains(r) && spec_selected(rows, p, r)),
{
    let pred = selected_pred(rows, p);
    let f = rows.filter(pred);
    rows.lemma_filter_len(pred);
    assert(spec_query(rows, p) =~= f);
    if f.contains(r) {
        let i = choose|i: int| 0 <= i < f.len() && f[i] == r;
        rows.lemma_filter_pred(pred, i);
        lemma_filter_elem_index(rows, pred, i);
        let j = choose|j: int| 0 <= j < rows.len() && rows[j] == f[i];
        assert(rows.contains(r));
    }
    if rows.contains(r) && spec_selected(rows, p, r) {
        let i = choose|i: int| 0 <= i < rows.len() && rows[i] == r;
        rows.lemma_filter_contains(pred, i);
        assert(f.contains(r));
    }
}

/// Law: under `only_recent`, no two rows of a query result share a goal
/// intent — the result holds at most one snapshot per distinct
/// `goal_intent_id`, whatever the other filters and pagination are.
pub proof fn lemma_only_recent_distinct(
    rows: Seq<GoalIntentDataView>,
    p: QueryFilterView,
    i: int,
    j: int,
)
    requires
        wf_rows(rows),
        p.only_recent,
        0 <= p.offset,
        0 <= p.limit,
        0 <= i < j < spec_query(rows, p).len(),
    ensures
        spec_query(rows, p)[i].goal_intent_id != spec_query(rows, p)[j].goal_intent_id,
{
    let pred = selected_pred(rows, p);
    let f = rows.filter(pred);
    let q = spec_query(rows, p);
    lemma_filter_sorted(rows, pred);
    let start = if p.offset <= f.len() {
        p.offset
    } else {
        f.len() as int
    };
    assert(q[i] == f[start + i]);
    assert(q[j] == f[start + j]);
    rows.lemma_filter_pred(pred, start + i);
    rows.lemma_filter_pred(pred, start + j);
    if q[i].goal_intent_id == q[j].goal_intent_id {
        lemma_filter_elem_index(rows, pred, start + i);
        lemma_filter_elem_index(rows, pred, start + j);
        let a = choose|a: int| 0 <= a < rows.len() && rows[a] == f[start + i];
        let b = choose|b: int| 0 <= b < rows.len() && rows[b] == f[start + j];
        assert(rows[a].goal_intent_data_id <= q[j].goal_intent_data_id);
        assert(rows[b].goal_intent_data_id <= q[i].goal_intent_data_id);
        assert(f[start + i].goal_intent_data_id < f[start + j].goal_intent_data_id);
    }
}

/// Law: under `only_recent` with pagination wide open, the result holds
/// exactly the rows that pass the other filters and are the newest snapshot
/// of their goal intent (newest among all rows of the table).
pub proof fn lemma_only_recent_membership(
    rows: Seq<GoalIntentDataView>,
    p: QueryFilterView,
    r: GoalIntentDataView,
)
    requires
        wf_rows(rows),
        p.only_recent,
        unpaginated(p, rows),
    ensures
        spec_query(rows, p).contains(r) <==> (rows.contains(r) && matches_filters(p, r)
            && is_latest_snapshot(rows, r)),
{
    lemma_query_membership(rows, p, r);
}

/// Law: with only a partial-name filter set and pagination wide open, the
/// query returns exactly the rows whose name contains that substring.
pub proof fn lemma_partial_name_filter(
    rows: Seq<GoalIntentDataView>,
    p: QueryFilterView,
    s: Seq<char>,
    r: GoalIntentDataView,
)
    requires
        wf_rows(rows),
        only_partial_name(p),
        p.partial_name == Some(s),
        !p.only_recent,
        unpaginated(p, rows),
    ensures
        spec_query(rows, p).contains(r) <==> (rows.contains(r) && contains_substring(r.name, s)),
{
    lemma_query_membership(rows, p, r);
}

} // verus!
