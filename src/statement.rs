use vstd::prelude::*;
use crate::clause::{clause_sql, default_clause, ClauseView, OnConflictClause};
use crate::column::{check_identifier, is_identifier};
use crate::error::CompositionError;
use crate::values::{InsertValues, OnConflictValues, UndecoratedInsertRecord};

verus! {

/// The SQL text of an insert whose rows render as `rows_sql`: the trailing
/// clause, when there is one, follows after a single space.
pub open spec fn with_trailing_clause(rows_sql: Seq<char>, clause: Option<ClauseView>) -> Seq<char> {
    match clause {
        Some(c) => rows_sql + " "@ + clause_sql(c),
        None => rows_sql,
    }
}

/// An insert into a table whose rows are not given yet.
pub struct IncompleteInsertStatement {
    pub table: String,
}

/// An insert of `records` into `table`.
pub struct InsertStatement<U> {
    pub table: String,
    pub records: U,
}

/// Starts an insert into `table`.
///
/// Fails when `table` is not a plain identifier.
pub fn insert_into(table: &str) -> (r: Result<IncompleteInsertStatement, CompositionError>)
    ensures
        r is Ok <==> is_identifier(table@),
        r matches Ok(s) ==> s.table@ == table@,
        r matches Err(e) ==> e == CompositionError::InvalidIdentifier,
{
    if check_identifier(table) {
        Ok(IncompleteInsertStatement { table: String::from_str(table) })
    } else {
        Err(CompositionError::InvalidIdentifier)
    }
}

impl IncompleteInsertStatement {
    /// The insert of `records` into this table.
    ///
    /// Fails when a column that the rows or their clause name belongs to
    /// another table.
    pub fn values<U: InsertValues>(self, records: U) -> (r: Result<InsertStatement<U>, CompositionError>)
        ensures
            r is Ok <==> records.within_table(self.table@),
            r matches Ok(s) ==> s.table == self.table && s.records == records && s.wf(),
            r matches Err(e) ==> e == CompositionError::ForeignColumn,
    {
        if records.columns_within(self.table.as_str()) {
            Ok(InsertStatement { table: self.table, records })
        } else {
            Err(CompositionError::ForeignColumn)
        }
    }
}

impl<U: InsertValues> InsertStatement<U> {
    /// Every column named by the rows and their clause belongs to the table.
    pub open spec fn wf(&self) -> bool {
        self.records.within_table(self.table@)
    }

    /// The SQL text that follows the rows, if the rows carry a clause.
    pub fn trailing_clause(&self) -> (r: Option<String>)
        ensures
            r is Some <==> self.records.conflict_clause() is Some,
            r matches Some(s) ==> s@ == clause_sql(self.records.conflict_clause()->Some_0),
    {
        self.records.trailing_clause()
    }

    /// Completes `rows_sql`, the rendered `INSERT INTO ... VALUES ...`, with
    /// the trailing clause of the rows.
    pub fn append_clause(&self, rows_sql: String) -> (r: String)
        ensures
            r@ == with_trailing_clause(rows_sql@, self.records.conflict_clause()),
    {
        match self.records.trailing_clause() {
            Some(c) => {
                let mut r = rows_sql;
                r.append(" ");
                r.append(c.as_str());
                r
            },
            None => rows_sql,
        }
    }
}

impl<U: UndecoratedInsertRecord> InsertStatement<U> {
    /// This insert with `ON CONFLICT DO NOTHING` after its rows.
    pub fn on_conflict_do_nothing(self) -> (r: InsertStatement<OnConflictValues<U>>)
        ensures
            r.table == self.table,
            r.records.records == self.records,
            r.records.clause@ == default_clause(),
            self.wf() ==> r.wf(),
    {
        let clause = OnConflictClause::do_nothing();
        InsertStatement { table: self.table, records: OnConflictValues::new(self.records, clause) }
    }
}

} // verus!
