use vstd::prelude::*;
use crate::error::CompositionError;

verus! {

/// A character that may start an unquoted SQL identifier.
pub open spec fn is_ident_start(c: char) -> bool {
    ('a' <= c && c <= 'z') || ('A' <= c && c <= 'Z') || c == '_'
}

/// A character that may follow the first one in an unquoted SQL identifier.
pub open spec fn is_ident_char(c: char) -> bool {
    is_ident_start(c) || ('0' <= c && c <= '9')
}

/// A name that SQL reads as an identifier without any quoting.
pub open spec fn is_identifier(s: Seq<char>) -> bool {
    &&& s.len() > 0
    &&& is_ident_start(s[0])
    &&& forall|i: int| 0 < i < s.len() ==> is_ident_char(#[trigger] s[i])
}

fn ident_start(c: char) -> (r: bool)
    ensures
        r == is_ident_start(c),
{
    ('a' <= c && c <= 'z') || ('A' <= c && c <= 'Z') || c == '_'
}

fn ident_char(c: char) -> (r: bool)
    ensures
        r == is_ident_char(c),
{
    ident_start(c) || ('0' <= c && c <= '9')
}

/// Tells whether `s` can be rendered as it is, without quotes.
pub fn check_identifier(s: &str) -> (r: bool)
    ensures
        r == is_identifier(s@),
{
    let n = s.unicode_len();
    if n == 0 {
        return false;
    }
    if !ident_start(s.get_char(0)) {
        return false;
    }
    let mut i: usize = 1;
    while i < n
        invariant
            n == s@.len(),
            1 <= i <= n,
            is_ident_start(s@[0]),
            forall|j: int| 0 < j < i ==> is_ident_char(#[trigger] s@[j]),
        decreases n - i,
    {
        if !ident_char(s.get_char(i)) {
            return false;
        }
        i += 1;
    }
    true
}

/// The mathematical value of a [`Column`].
pub struct ColumnView {
    pub table: Seq<char>,
    pub name: Seq<char>,
}

/// A column reference that carries the identity of the table owning it.
pub struct Column {
    pub table: String,
    pub name: String,
}

impl View for Column {
    type V = ColumnView;

    open spec fn view(&self) -> ColumnView {
        ColumnView { table: self.table@, name: self.name@ }
    }
}

impl Column {
    /// Both the table name and the column name are plain identifiers.
    pub open spec fn wf(&self) -> bool {
        is_identifier(self.table@) && is_identifier(self.name@)
    }

    /// The column `name` of the table `table`.
    pub fn new(table: &str, name: &str) -> (r: Result<Column, CompositionError>)
        ensures
            r is Ok <==> is_identifier(table@) && is_identifier(name@),
            r matches Ok(c) ==> c.table@ == table@ && c.name@ == name@ && c.wf(),
            r matches Err(e) ==> e == CompositionError::InvalidIdentifier,
    {
        if check_identifier(table) && check_identifier(name) {
            Ok(Column { table: String::from_str(table), name: String::from_str(name) })
        } else {
            Err(CompositionError::InvalidIdentifier)
        }
    }

    /// The assignment `self = value`, where `value` is SQL expression text.
    ///
    /// A lone assignment is also the smallest insertable record: one column
    /// and its value.
    pub fn eq(&self, value: &str) -> (r: Assignment)
        ensures
            r.column@ == self@,
            r.value@ == value@,
    {
        Assignment {
            column: Column { table: self.table.clone(), name: self.name.clone() },
            value: String::from_str(value),
        }
    }
}

/// The mathematical value of an [`Assignment`].
pub struct AssignmentView {
    pub column: ColumnView,
    pub value: Seq<char>,
}

/// A column together with the SQL expression that it is set to.
pub struct Assignment {
    pub column: Column,
    pub value: String,
}

impl View for Assignment {
    type V = AssignmentView;

    open spec fn view(&self) -> AssignmentView {
        AssignmentView { column: self.column@, value: self.value@ }
    }
}

/// Every column of the list has plain identifiers for its table and its name.
pub open spec fn all_identifiers(cs: Seq<ColumnView>) -> bool {
    forall|i: int| 0 <= i < cs.len() ==> is_identifier(#[trigger] cs[i].table) && is_identifier(cs[i].name)
}

/// Every column of the list belongs to the table of the first one.
pub open spec fn same_table(cs: Seq<ColumnView>) -> bool {
    forall|i: int| 0 <= i < cs.len() ==> #[trigger] cs[i].table == cs[0].table
}

/// No column name occurs twice in the list.
pub open spec fn distinct_names(cs: Seq<ColumnView>) -> bool {
    forall|i: int, j: int| 0 <= i < j < cs.len() ==> #[trigger] cs[i].name != #[trigger] cs[j].name
}

/// The first rule that a list of columns breaks, if any.
pub open spec fn column_list_error(cs: Seq<ColumnView>) -> Option<CompositionError> {
    if !all_identifiers(cs) {
        Some(CompositionError::InvalidIdentifier)
    } else if !same_table(cs) {
        Some(CompositionError::MixedTables)
    } else if !distinct_names(cs) {
        Some(CompositionError::DuplicateColumn)
    } else {
        None
    }
}

/// The views of a vector of columns.
pub open spec fn column_views(cs: Seq<Column>) -> Seq<ColumnView> {
    cs.map_values(|c: Column| c@)
}

/// Checks a list of columns against the rules of [`column_list_error`].
pub fn check_column_list(cs: &Vec<Column>) -> (r: Option<CompositionError>)
    ensures
        r == column_list_error(column_views(cs@)),
{
    let ghost v = column_views(cs@);
    let n = cs.len();
    let mut i: usize = 0;
    while i < n
        invariant
            n == cs@.len(),
            v == column_views(cs@),
            i <= n,
            forall|k: int| 0 <= k < i ==> is_identifier(#[trigger] v[k].table) && is_identifier(v[k].name),
        decreases n - i,
    {
        assert(v[i as int] == cs@[i as int]@);
        let table_ok = check_identifier(cs[i].table.as_str());
        let name_ok = check_identifier(cs[i].name.as_str());
        assert(table_ok == is_identifier(v[i as int].table));
        assert(name_ok == is_identifier(v[i as int].name));
        if !(table_ok && name_ok) {
            assert(!is_identifier(v[i as int].table) || !is_identifier(v[i as int].name));
            return Some(CompositionError::InvalidIdentifier);
        }
        assert(forall|k: int| 0 <= k <= i ==> is_identifier(#[trigger] v[k].table) && is_identifier(v[k].name));
        i += 1;
    }
    assert(all_identifiers(v));
    i = 0;
    while i < n
        invariant
            n == cs@.len(),
            v == column_views(cs@),
            i <= n,
            all_identifiers(v),
            forall|k: int| 0 <= k < i ==> #[trigger] v[k].table == v[0].table,
        decreases n - i,
    {
        assert(v[i as int] == cs@[i as int]@);
        assert(v[0] == cs@[0]@);
        if cs[i].table != cs[0].table {
            assert(v[i as int].table != v[0].table);
            return Some(CompositionError::MixedTables);
        }
        i += 1;
    }
    assert(same_table(v));
    i = 0;
    while i < n
        invariant
            n == cs@.len(),
            v == column_views(cs@),
            i <= n,
            all_identifiers(v),
            same_table(v),
            forall|a: int, b: int| 0 <= a < b < n && a < i ==> #[trigger] v[a].name != #[trigger] v[b].name,
        decreases n - i,
    {
        let mut j: usize = i + 1;
        while j < n
            invariant
                n == cs@.len(),
                v == column_views(cs@),
                i < n,
                i + 1 <= j <= n,
                all_identifiers(v),
                same_table(v),
                forall|a: int, b: int| 0 <= a < b < n && a < i ==> #[trigger] v[a].name != #[trigger] v[b].name,
                forall|b: int| i < b < j ==> v[i as int].name != #[trigger] v[b].name,
            decreases n - j,
        {
            assert(v[i as int] == cs@[i as int]@);
            assert(v[j as int] == cs@[j as int]@);
            if cs[i].name == cs[j].name {
                assert(v[i as int].name == v[j as int].name);
                return Some(CompositionError::DuplicateColumn);
            }
            j += 1;
        }
        i += 1;
    }
    assert(distinct_names(v));
    None
}

} // verus!
