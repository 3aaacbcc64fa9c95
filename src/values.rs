use vstd::prelude::*;
use crate::clause::{clause_sql, clause_within_table, default_clause, ClauseView, OnConflictClause};
use crate::column::Assignment;

verus! {

/// The capability of a value to supply the rows of an insert.
pub trait InsertValues {
    /// The conflict clause that follows the rows, if any.
    spec fn conflict_clause(&self) -> Option<ClauseView>;

    /// Every column that the rows (and their clause) name belongs to `table`.
    spec fn within_table(&self, table: Seq<char>) -> bool;

    /// The SQL text that the insert statement appends after the rows.
    fn trailing_clause(&self) -> (r: Option<String>)
        ensures
            r is Some <==> self.conflict_clause() is Some,
            r matches Some(s) ==> s@ == clause_sql(self.conflict_clause()->Some_0),
    ;

    /// Tells whether every column named belongs to `table`.
    fn columns_within(&self, table: &str) -> (r: bool)
        ensures
            r == self.within_table(table@),
    ;
}

/// Rows that carry no conflict clause yet, and so may be decorated with one.
pub trait UndecoratedInsertRecord: InsertValues {
    /// Such rows have no clause.
    proof fn lemma_undecorated(&self)
        ensures
            self.conflict_clause() is None,
    ;
}

fn table_is(t: &String, table: &str) -> (r: bool)
    ensures
        r == (t@ == table@),
{
    let s = String::from_str(table);
    *t == s
}

impl InsertValues for Assignment {
    open spec fn conflict_clause(&self) -> Option<ClauseView> {
        None
    }

    open spec fn within_table(&self, table: Seq<char>) -> bool {
        self.column.table@ == table
    }

    fn trailing_clause(&self) -> (r: Option<String>) {
        None
    }

    fn columns_within(&self, table: &str) -> (r: bool) {
        table_is(&self.column.table, table)
    }
}

impl UndecoratedInsertRecord for Assignment {
    proof fn lemma_undecorated(&self) {
    }
}

/// One row made of several column assignments.
pub struct Record {
    pub values: Vec<Assignment>,
}

impl Record {
    /// The row that sets each column of `values` to its expression.
    pub fn new(values: Vec<Assignment>) -> (r: Record)
        ensures
            r.values == values,
    {
        Record { values }
    }
}

impl InsertValues for Record {
    open spec fn conflict_clause(&self) -> Option<ClauseView> {
        None
    }

    open spec fn within_table(&self, table: Seq<char>) -> bool {
        forall|i: int| 0 <= i < self.values@.len() ==> (#[trigger] self.values@[i]).column.table@ == table
    }

    fn trailing_clause(&self) -> (r: Option<String>) {
        None
    }

    fn columns_within(&self, table: &str) -> (r: bool) {
        let n = self.values.len();
        let mut i: usize = 0;
        while i < n
            invariant
                n == self.values@.len(),
                i <= n,
                forall|k: int| 0 <= k < i ==> (#[trigger] self.values@[k]).column.table@ == table@,
            decreases n - i,
        {
            if !table_is(&self.values[i].column.table, table) {
                return false;
            }
            i += 1;
        }
        true
    }
}

impl UndecoratedInsertRecord for Record {
    proof fn lemma_undecorated(&self) {
    }
}

impl<T: UndecoratedInsertRecord> InsertValues for Vec<T> {
    open spec fn conflict_clause(&self) -> Option<ClauseView> {
        None
    }

    open spec fn within_table(&self, table: Seq<char>) -> bool {
        forall|i: int| 0 <= i < self@.len() ==> (#[trigger] self@[i]).within_table(table)
    }

    fn trailing_clause(&self) -> (r: Option<String>) {
        None
    }

    fn columns_within(&self, table: &str) -> (r: bool) {
        let n = self.len();
        let mut i: usize = 0;
        while i < n
            invariant
                n == self@.len(),
                i <= n,
                forall|k: int| 0 <= k < i ==> (#[trigger] self@[k]).within_table(table@),
            decreases n - i,
        {
            if !self[i].columns_within(table) {
                return false;
            }
            i += 1;
        }
        true
    }
}

impl<T: UndecoratedInsertRecord> UndecoratedInsertRecord for Vec<T> {
    proof fn lemma_undecorated(&self) {
    }
}

impl<T: UndecoratedInsertRecord> InsertValues for Option<T> {
    open spec fn conflict_clause(&self) -> Option<ClauseView> {
        None
    }

    open spec fn within_table(&self, table: Seq<char>) -> bool {
        match self {
            Some(x) => x.within_table(table),
            None => true,
        }
    }

    fn trailing_clause(&self) -> (r: Option<String>) {
        None
    }

    fn columns_within(&self, table: &str) -> (r: bool) {
        match self {
            Some(x) => x.columns_within(table),
            None => true,
        }
    }
}

impl<T: UndecoratedInsertRecord> UndecoratedInsertRecord for Option<T> {
    proof fn lemma_undecorated(&self) {
    }
}

impl<T: UndecoratedInsertRecord> InsertValues for [T] {
    open spec fn conflict_clause(&self) -> Option<ClauseView> {
        None
    }

    open spec fn within_table(&self, table: Seq<char>) -> bool {
        forall|i: int| 0 <= i < self@.len() ==> (#[trigger] self@[i]).within_table(table)
    }

    fn trailing_clause(&self) -> (r: Option<String>) {
        None
    }

    fn columns_within(&self, table: &str) -> (r: bool) {
        let n = self.len();
        let mut i: usize = 0;
        while i < n
            invariant
                n == self@.len(),
                i <= n,
                forall|k: int| 0 <= k < i ==> (#[trigger] self@[k]).within_table(table@),
            decreases n - i,
        {
            if !self[i].columns_within(table) {
                return false;
            }
            i += 1;
        }
        true
    }
}

impl<T: UndecoratedInsertRecord> UndecoratedInsertRecord for [T] {
    proof fn lemma_undecorated(&self) {
    }
}

impl<'a, T: InsertValues + ?Sized> InsertValues for &'a T {
    open spec fn conflict_clause(&self) -> Option<ClauseView> {
        (**self).conflict_clause()
    }

    open spec fn within_table(&self, table: Seq<char>) -> bool {
        (**self).within_table(table)
    }

    fn trailing_clause(&self) -> (r: Option<String>) {
        (**self).trailing_clause()
    }

    fn columns_within(&self, table: &str) -> (r: bool) {
        (**self).columns_within(table)
    }
}

impl<'a, T: UndecoratedInsertRecord + ?Sized> UndecoratedInsertRecord for &'a T {
    proof fn lemma_undecorated(&self) {
        (**self).lemma_undecorated();
    }
}

/// Rows decorated with the conflict clause that follows them.
pub struct OnConflictValues<U> {
    pub records: U,
    pub clause: OnConflictClause,
}

impl<U: UndecoratedInsertRecord> OnConflictValues<U> {
    /// `records` followed by `clause`.
    pub fn new(records: U, clause: OnConflictClause) -> (r: OnConflictValues<U>)
        ensures
            r.records == records,
            r.clause == clause,
    {
        OnConflictValues { records, clause }
    }

    /// `records` followed by `ON CONFLICT DO NOTHING`.
    pub fn do_nothing(records: U) -> (r: OnConflictValues<U>)
        ensures
            r.records == records,
            r.clause@ == default_clause(),
            r.conflict_clause() == Some(default_clause()),
    {
        OnConflictValues { records, clause: OnConflictClause::do_nothing() }
    }
}

impl<U: UndecoratedInsertRecord> InsertValues for OnConflictValues<U> {
    open spec fn conflict_clause(&self) -> Option<ClauseView> {
        Some(self.clause@)
    }

    open spec fn within_table(&self, table: Seq<char>) -> bool {
        self.records.within_table(table) && clause_within_table(self.clause@, table)
    }

    fn trailing_clause(&self) -> (r: Option<String>) {
        Some(self.clause.render())
    }

    fn columns_within(&self, table: &str) -> (r: bool) {
        self.records.columns_within(table) && self.clause.within_table(table)
    }
}

} // verus!
