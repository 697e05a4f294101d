//! The verified model of the `goal_intent_data` table: insert, point lookup,
//! and the filtered, paginated query, with their exact semantics.

use vstd::prelude::*;
use crate::model::{GoalIntentData, GoalIntentDataView, GoalIntentDataViewProps, QueryFilterView,
    matches_filters};
use crate::seq_util::lemma_filter_push;

verus! {

/// Ids strictly increase along the sequence (so every id occurs once and the
/// rows stand in ascending id order).
pub open spec fn sorted_by_id(rows: Seq<GoalIntentDataView>) -> bool {
    forall|i: int, j: int|
        0 <= i < j < rows.len() ==> rows[i].goal_intent_data_id < rows[j].goal_intent_data_id
}

/// Well-formed table contents: rows in ascending id order, ids positive.
pub open spec fn wf_rows(rows: Seq<GoalIntentDataView>) -> bool {
    &&& sorted_by_id(rows)
    &&& forall|i: int| 0 <= i < rows.len() ==> 1 <= #[trigger] rows[i].goal_intent_data_id
}

/// The row with the given id, if any.
pub open spec fn spec_get(rows: Seq<GoalIntentDataView>, id: int) -> Option<GoalIntentDataView> {
    if exists|i: int| 0 <= i < rows.len() && #[trigger] rows[i].goal_intent_data_id == id {
        Some(
            rows[choose|i: int|
                0 <= i < rows.len() && #[trigger] rows[i].goal_intent_data_id == id],
        )
    } else {
        None
    }
}

/// `r` is the newest snapshot of its goal intent: no row of the table with
/// the same `goal_intent_id` has a greater id.
pub open spec fn is_latest_snapshot(rows: Seq<GoalIntentDataView>, r: GoalIntentDataView) -> bool {
    forall|j: int|
        0 <= j < rows.len() && #[trigger] rows[j].goal_intent_id == r.goal_intent_id
            ==> rows[j].goal_intent_data_id <= r.goal_intent_data_id
}

/// The query keeps `r` before pagination: it passes every set filter, and,
/// under `only_recent`, is the newest snapshot of its goal intent.
pub open spec fn spec_selected(
    rows: Seq<GoalIntentDataView>,
    p: QueryFilterView,
    r: GoalIntentDataView,
) -> bool {
    &&& matches_filters(p, r)
    &&& p.only_recent ==> is_latest_snapshot(rows, r)
}

/// The per-row selection predicate of a query over the table `rows`.
pub open spec fn selected_pred(rows: Seq<GoalIntentDataView>, p: QueryFilterView) -> spec_fn(
    GoalIntentDataView,
) -> bool {
    |r: GoalIntentDataView| spec_selected(rows, p, r)
}

/// Offset and limit applied to an ordered result: skip the first `offset`
/// rows, keep at most `limit` of the rest.
pub open spec fn spec_page(rows: Seq<GoalIntentDataView>, offset: int, limit: int) -> Seq<
    GoalIntentDataView,
> {
    let start = if offset <= rows.len() {
        offset
    } else {
        rows.len() as int
    };
    let end = if offset + limit <= rows.len() {
        offset + limit
    } else {
        rows.len() as int
    };
    rows.subrange(start, end)
}

/// What the query returns: the rows the selection predicate keeps, in table
/// order (ascending id), then paginated.
pub open spec fn spec_query(rows: Seq<GoalIntentDataView>, p: QueryFilterView) -> Seq<
    GoalIntentDataView,
> {
    spec_page(rows.filter(selected_pred(rows, p)), p.offset, p.limit)
}

/// The in-memory table: a sequence of snapshot rows in ascending id order,
/// with storage-generated ids.
pub struct GoalIntentDataStore {
    rows: Vec<GoalIntentData>,
}

impl View for GoalIntentDataStore {
    type V = Seq<GoalIntentDataView>;

    closed spec fn view(&self) -> Seq<GoalIntentDataView> {
        self.rows@.map_values(|g: GoalIntentData| g@)
    }
}

impl GoalIntentDataStore {
    pub open spec fn wf(&self) -> bool {
        wf_rows(self@)
    }

    /// The id storage will give the next inserted row.
    pub open spec fn spec_next_id(&self) -> int {
        if self@.len() == 0 {
            1
        } else {
            self@.last().goal_intent_data_id + 1
        }
    }

    /// An empty table.
    pub fn new() -> (r: GoalIntentDataStore)
        ensures
            r.wf(),
            r@ == Seq::<GoalIntentDataView>::empty(),
    {
        let r = GoalIntentDataStore { rows: Vec::new() };
        proof {
            assert(r@ =~= Seq::<GoalIntentDataView>::empty());
        }
        r
    }

    /// Inserts one snapshot row.  Storage generates the id (one past the
    /// greatest id present); the caller supplies the creation time and the
    /// snapshot's fields.  Returns the fully populated record, identical to
    /// the row now held by the table.
    pub fn add(
        &mut self,
        creation_time: i64,
        creator_user_id: i64,
        goal_intent_id: i64,
        name: String,
        active: bool,
    ) -> (r: GoalIntentData)
        requires
            old(self).wf(),
            old(self).spec_next_id() <= i64::MAX,
        ensures
            final(self).wf(),
            final(self)@ == old(self)@.push(r@),
            r@.goal_intent_data_id == old(self).spec_next_id(),
            1 <= r@.goal_intent_data_id,
            forall|i: int|
                0 <= i < old(self)@.len() ==> #[trigger] old(self)@[i].goal_intent_data_id
                    < r@.goal_intent_data_id,
            r@.creation_time == creation_time as int,
            r@.creator_user_id == creator_user_id as int,
            r@.goal_intent_id == goal_intent_id as int,
            r@.name == name@,
            r@.active == active,
    {
        let n = self.rows.len();
        let id: i64 = if n == 0 {
            1
        } else {
            proof {
                assert(self@[n as int - 1] == self.rows@[n as int - 1]@);
                assert(self@.last().goal_intent_data_id < i64::MAX);
            }
            self.rows[n - 1].goal_intent_data_id + 1
        };
        let r = GoalIntentData {
            goal_intent_data_id: id,
            creation_time,
            creator_user_id,
            goal_intent_id,
            name,
            active,
        };
        let stored = r.duplicate();
        self.rows.push(stored);
        proof {
            assert(self@ =~= old(self)@.push(r@));
            assert forall|i: int| 0 <= i < old(self)@.len() implies old(
                self,
            )@[i].goal_intent_data_id < r@.goal_intent_data_id by {
                if i < old(self)@.len() - 1 {
                    assert(old(self)@[i].goal_intent_data_id < old(
                        self,
                    )@.last().goal_intent_data_id);
                }
            }
        }
        r
    }

    /// Point lookup by primary key.  Absence is a normal outcome, reported
    /// as `None`; the operation itself cannot fail.
    pub fn get_by_goal_intent_data_id(&self, goal_intent_data_id: i64) -> (r: Option<
        GoalIntentData,
    >)
        requires
            self.wf(),
        ensures
            match r {
                Some(g) => spec_get(self@, goal_intent_data_id as int) == Some(g@),
                None => spec_get(self@, goal_intent_data_id as int) is None,
            },
    {
        let n = self.rows.len();
        let mut k: usize = 0;
        while k < n
            invariant
                self.wf(),
                k <= n == self@.len(),
                forall|l: int|
                    0 <= l < k ==> #[trigger] self@[l].goal_intent_data_id
                        != goal_intent_data_id as int,
            decreases n - k,
        {
            if self.rows[k].goal_intent_data_id == goal_intent_data_id {
                let g = self.rows[k].duplicate();
                proof {
                    assert(self@[k as int] == self.rows@[k as int]@);
                    let i = choose|i: int|
                        0 <= i < self@.len() && #[trigger] self@[i].goal_intent_data_id
                            == goal_intent_data_id as int;
                    assert(i == k as int) by {
                        if i < k as int {
                            assert(self@[i].goal_intent_data_id
                                < self@[k as int].goal_intent_data_id);
                        }
                        if i > k as int {
                            assert(self@[k as int].goal_intent_data_id
                                < self@[i].goal_intent_data_id);
                        }
                    }
                }
                return Some(g);
            }
            proof {
                assert(self@[k as int] == self.rows@[k as int]@);
            }
            k = k + 1;
        }
        None
    }

    /// Is row `k` the newest snapshot of its goal intent?  Because rows
    /// stand in ascending id order, this holds exactly when no later row
    /// has the same `goal_intent_id`.
    fn is_latest(&self, k: usize) -> (r: bool)
        requires
            self.wf(),
            k < self@.len(),
        ensures
            r == is_latest_snapshot(self@, self@[k as int]),
    {
        let n = self.rows.len();
        let mut j: usize = k + 1;
        while j < n
            invariant
                self.wf(),
                k < j <= n == self@.len(),
                forall|l: int|
                    k < l < j ==> #[trigger] self@[l].goal_intent_id
                        != self@[k as int].goal_intent_id,
            decreases n - j,
        {
            proof {
                assert(self@[j as int] == self.rows@[j as int]@);
            }
            if self.rows[j].goal_intent_id == self.rows[k].goal_intent_id {
                proof {
                    assert(self@[k as int] == self.rows@[k as int]@);
                    assert(self@[j as int].goal_intent_id == self@[k as int].goal_intent_id);
                    assert(self@[k as int].goal_intent_data_id
                        < self@[j as int].goal_intent_data_id);
                    assert(!is_latest_snapshot(self@, self@[k as int]));
                }
                return false;
            }
            j = j + 1;
        }
        proof {
            let kk: int = k as int;
            assert forall|l: int|
                0 <= l < self@.len() && #[trigger] self@[l].goal_intent_id
                    == self@[kk].goal_intent_id implies self@[l].goal_intent_data_id
                <= self@[kk].goal_intent_data_id by {
                if l < k as int {
                    assert(self@[l].goal_intent_data_id < self@[k as int].goal_intent_data_id);
                }
            }
        }
        true
    }

    /// The filtered, paginated query.  Returns, in ascending id order, the
    /// rows that pass every set filter (and, under `only_recent`, are the
    /// newest snapshot of their goal intent), then skips `offset` of them
    /// and keeps at most `limit`.  An empty result is a normal outcome.
    pub fn query(&self, props: &GoalIntentDataViewProps) -> (r: Vec<GoalIntentData>)
        requires
            self.wf(),
        ensures
            r@.map_values(|g: GoalIntentData| g@) == spec_query(self@, props@),
    {
        let n = self.rows.len();
        let mut selected: Vec<GoalIntentData> = Vec::new();
        let mut k: usize = 0;
        proof {
            reveal(Seq::filter);
            assert(self@.take(0) =~= Seq::<GoalIntentDataView>::empty());
            assert(selected@.map_values(|g: GoalIntentData| g@) =~= Seq::<
                GoalIntentDataView,
            >::empty());
            assert(self@.take(0).filter(selected_pred(self@, props@)) =~= Seq::<
                GoalIntentDataView,
            >::empty());
        }
        while k < n
            invariant
                self.wf(),
                k <= n == self@.len(),
                selected@.map_values(|g: GoalIntentData| g@) == self@.take(k as int).filter(
                    selected_pred(self@, props@),
                ),
            decreases n - k,
        {
            proof {
                assert(self@[k as int] == self.rows@[k as int]@);
            }
            let keep = props.matches_record(&self.rows[k]) && (!props.only_recent || self.is_latest(
                k,
            ));
            proof {
                assert(keep == selected_pred(self@, props@)(self@[k as int]));
                assert(self@.take(k + 1 as int) =~= self@.take(k as int).push(self@[k as int]));
                lemma_filter_push(
                    self@.take(k as int),
                    selected_pred(self@, props@),
                    self@[k as int],
                );
            }
            if keep {
                let g = self.rows[k].duplicate();
                let ghost prev = selected@.map_values(|g: GoalIntentData| g@);
                selected.push(g);
                proof {
                    assert(selected@.map_values(|g: GoalIntentData| g@) =~= prev.push(
                        self@[k as int],
                    ));
                }
            }
            k = k + 1;
        }
        proof {
            assert(self@.take(n as int) =~= self@);
        }
        let ghost fsel = self@.filter(selected_pred(self@, props@));
        let total = selected.len();
        let start = if props.offset <= total {
            props.offset
        } else {
            total
        };
        let remaining = total - start;
        let count = if props.limit <= remaining {
            props.limit
        } else {
            remaining
        };
        let mut out: Vec<GoalIntentData> = Vec::new();
        let mut t: usize = 0;
        proof {
            assert(out@.map_values(|g: GoalIntentData| g@) =~= fsel.subrange(
                start as int,
                start as int,
            ));
        }
        while t < count
            invariant
                t <= count,
                start + count <= total == selected.len(),
                selected@.map_values(|g: GoalIntentData| g@) == fsel,
                out@.map_values(|g: GoalIntentData| g@) == fsel.subrange(
                    start as int,
                    start + t as int,
                ),
            decreases count - t,
        {
            let g = selected[start + t].duplicate();
            let ghost prev = out@.map_values(|g: GoalIntentData| g@);
            out.push(g);
            proof {
                assert(selected@.map_values(|g: GoalIntentData| g@)[start + t as int] == selected@[
                    start + t as int
                ]@);
                assert(out@.map_values(|g: GoalIntentData| g@) =~= prev.push(
                    fsel[start + t as int],
                ));
                assert(out@.map_values(|g: GoalIntentData| g@) =~= fsel.subrange(
                    start as int,
                    start + (t + 1) as int,
                ));
            }
            t = t + 1;
        }
        proof {
            assert(fsel.len() == total);
            assert(out@.map_values(|g: GoalIntentData| g@) =~= spec_query(self@, props@));
        }
        out
    }
}

} // verus!
