use vstd::prelude::*;
use crate::action::ConflictAction;
use crate::clause::{default_clause, ClauseView, OnConflictClause};
use crate::column::Assignment;
use crate::target::ConflictTarget;
use crate::values::{OnConflictValues, Record};

verus! {

/// Entry points that decorate a row source with an `ON CONFLICT` clause.
///
/// Each shape of row source opts in by its own impl: a lone assignment, a
/// record, a slice or a vector of records, and an optional record. An insert statement
/// never does, so that its own `on_conflict_do_nothing` cannot collide
/// with this one.
pub trait OnConflictExtension {
    /// These rows followed by `ON CONFLICT DO NOTHING`, with no target.
    fn on_conflict_do_nothing(&self) -> (r: OnConflictValues<&Self>)
        ensures
            r.records == self,
            r.clause@ == default_clause(),
    {
        OnConflictValues { records: self, clause: OnConflictClause::do_nothing() }
    }

    /// These rows followed by `ON CONFLICT`, where a conflict on `target`
    /// leads to `action`.
    fn on_conflict(&self, target: ConflictTarget, action: ConflictAction) -> (r: OnConflictValues<&Self>)
        ensures
            r.records == self,
            r.clause@ == (ClauseView { target: target@, action: action@ }),
    {
        OnConflictValues { records: self, clause: OnConflictClause::new(target, action) }
    }
}

impl OnConflictExtension for Assignment {}

impl OnConflictExtension for Record {}

impl<T> OnConflictExtension for [T] {}

impl<T> OnConflictExtension for Vec<T> {}

impl<T> OnConflictExtension for Option<T> {}

} // verus!
