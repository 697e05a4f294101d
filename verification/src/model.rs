//! The record type held by the `goal_intent_data` table and the filter set
//! accepted by its query operation.

use vstd::prelude::*;
use crate::text::{contains_substring, str_contains_substring};

verus! {

/// One immutable snapshot row of the `goal_intent_data` table.
pub struct GoalIntentData {
    /// Primary key, generated by storage on insert; positive.
    pub goal_intent_data_id: i64,
    /// Insert time in epoch milliseconds, set server-side; immutable.
    pub creation_time: i64,
    /// The user that created this snapshot.
    pub creator_user_id: i64,
    /// The goal intent this snapshot belongs to.
    pub goal_intent_id: i64,
    /// The goal intent's name as of this snapshot.
    pub name: String,
    /// Whether the goal intent is active as of this snapshot.
    pub active: bool,
}

/// Mathematical image of one table row.
pub struct GoalIntentDataView {
    pub goal_intent_data_id: int,
    pub creation_time: int,
    pub creator_user_id: int,
    pub goal_intent_id: int,
    pub name: Seq<char>,
    pub active: bool,
}

impl View for GoalIntentData {
    type V = GoalIntentDataView;

    open spec fn view(&self) -> GoalIntentDataView {
        GoalIntentDataView {
            goal_intent_data_id: self.goal_intent_data_id as int,
            creation_time: self.creation_time as int,
            creator_user_id: self.creator_user_id as int,
            goal_intent_id: self.goal_intent_id as int,
            name: self.name@,
            active: self.active,
        }
    }
}

impl GoalIntentData {
    /// An identical record (field-for-field copy).
    pub fn duplicate(&self) -> (r: GoalIntentData)
        ensures
            r@ == self@,
    {
        GoalIntentData {
            goal_intent_data_id: self.goal_intent_data_id,
            creation_time: self.creation_time,
            creator_user_id: self.creator_user_id,
            goal_intent_id: self.goal_intent_id,
            name: self.name.clone(),
            active: self.active,
        }
    }
}

/// The filter set of the query operation.  An unset filter imposes no
/// constraint; a set filter narrows the result to the rows whose field
/// equals it (or lies in the range, or contains the substring).
pub struct GoalIntentDataViewProps {
    pub goal_intent_data_id: Option<i64>,
    pub creation_time: Option<i64>,
    pub min_creation_time: Option<i64>,
    pub max_creation_time: Option<i64>,
    pub creator_user_id: Option<i64>,
    pub goal_intent_id: Option<i64>,
    pub name: Option<String>,
    pub partial_name: Option<String>,
    pub active: Option<bool>,
    /// Keep, per goal intent, only the row with the greatest id.
    pub only_recent: bool,
    /// Number of matching rows skipped, after filtering and ordering.
    pub offset: usize,
    /// Greatest number of rows returned.
    pub limit: usize,
}

/// Mathematical image of the filter set.
pub struct QueryFilterView {
    pub goal_intent_data_id: Option<int>,
    pub creation_time: Option<int>,
    pub min_creation_time: Option<int>,
    pub max_creation_time: Option<int>,
    pub creator_user_id: Option<int>,
    pub goal_intent_id: Option<int>,
    pub name: Option<Seq<char>>,
    pub partial_name: Option<Seq<char>>,
    pub active: Option<bool>,
    pub only_recent: bool,
    pub offset: int,
    pub limit: int,
}

impl View for GoalIntentDataViewProps {
    type V = QueryFilterView;

    open spec fn view(&self) -> QueryFilterView {
        QueryFilterView {
            goal_intent_data_id: match self.goal_intent_data_id {
                Some(v) => Some(v as int),
                None => None,
            },
            creation_time: match self.creation_time {
                Some(v) => Some(v as int),
                None => None,
            },
            min_creation_time: match self.min_creation_time {
                Some(v) => Some(v as int),
                None => None,
            },
            max_creation_time: match self.max_creation_time {
                Some(v) => Some(v as int),
                None => None,
            },
            creator_user_id: match self.creator_user_id {
                Some(v) => Some(v as int),
                None => None,
            },
            goal_intent_id: match self.goal_intent_id {
                Some(v) => Some(v as int),
                None => None,
            },
            name: match self.name {
                Some(ref n) => Some(n@),
                None => None,
            },
            partial_name: match self.partial_name {
                Some(ref n) => Some(n@),
                None => None,
            },
            active: self.active,
            only_recent: self.only_recent,
            offset: self.offset as int,
            limit: self.limit as int,
        }
    }
}

/// Every filter of `p` that is set holds of the row `r`; an unset filter
/// holds of every row.
pub open spec fn matches_filters(p: QueryFilterView, r: GoalIntentDataView) -> bool {
    &&& match p.goal_intent_data_id {
        Some(v) => r.goal_intent_data_id == v,
        None => true,
    }
    &&& match p.creation_time {
        Some(t) => r.creation_time == t,
        None => true,
    }
    &&& match p.min_creation_time {
        Some(t) => r.creation_time >= t,
        None => true,
    }
    &&& match p.max_creation_time {
        Some(t) => r.creation_time <= t,
        None => true,
    }
    &&& match p.creator_user_id {
        Some(v) => r.creator_user_id == v,
        None => true,
    }
    &&& match p.goal_intent_id {
        Some(v) => r.goal_intent_id == v,
        None => true,
    }
    &&& match p.name {
        Some(n) => r.name == n,
        None => true,
    }
    &&& match p.partial_name {
        Some(s) => contains_substring(r.name, s),
        None => true,
    }
    &&& match p.active {
        Some(a) => r.active == a,
        None => true,
    }
}

impl GoalIntentDataViewProps {
    /// Does the row pass every filter of this set?  (The `only_recent`
    /// restriction is not per-row and is handled by the query itself.)
    pub fn matches_record(&self, row: &GoalIntentData) -> (r: bool)
        ensures
            r == matches_filters(self@, row@),
    {
        let ok_id = match self.goal_intent_data_id {
            Some(v) => v == row.goal_intent_data_id,
            None => true,
        };
        let ok_time = match self.creation_time {
            Some(t) => t == row.creation_time,
            None => true,
        };
        let ok_min = match self.min_creation_time {
            Some(t) => row.creation_time >= t,
            None => true,
        };
        let ok_max = match self.max_creation_time {
            Some(t) => row.creation_time <= t,
            None => true,
        };
        let ok_creator = match self.creator_user_id {
            Some(v) => v == row.creator_user_id,
            None => true,
        };
        let ok_intent = match self.goal_intent_id {
            Some(v) => v == row.goal_intent_id,
            None => true,
        };
        let ok_name = match self.name {
            Some(ref n) => *n == row.name,
            None => true,
        };
        let ok_partial = match self.partial_name {
            Some(ref s) => str_contains_substring(row.name.as_str(), s.as_str()),
            None => true,
        };
        let ok_active = match self.active {
            Some(a) => a == row.active,
            None => true,
        };
        ok_id && ok_time && ok_min && ok_max && ok_creator && ok_intent && ok_name && ok_partial
            && ok_active
    }
}

} // verus!
