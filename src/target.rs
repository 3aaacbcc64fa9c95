use vstd::prelude::*;
use crate::column::{check_column_list, check_identifier, column_list_error, column_views, is_identifier, Column, ColumnView};
use crate::error::CompositionError;
use crate::sql::{append_listed, comma_join};

verus! {

/// The mathematical value of a [`ConflictTarget`].
pub enum TargetView {
    NoTarget,
    Columns(Seq<ColumnView>),
    Constraint(Seq<char>),
}

/// The names of a list of columns, in order.
pub open spec fn column_names(cs: Seq<ColumnView>) -> Seq<Seq<char>> {
    cs.map_values(|c: ColumnView| c.name)
}

/// The SQL text of a conflict target; empty when there is no target.
pub open spec fn target_sql(t: TargetView) -> Seq<char> {
    match t {
        TargetView::NoTarget => Seq::empty(),
        TargetView::Columns(cs) => "("@ + comma_join(column_names(cs)) + ")"@,
        TargetView::Constraint(name) => "ON CONSTRAINT "@ + name,
    }
}

/// A target that can be composed: a non-empty list of distinct columns of
/// one table, or a constraint whose name is a plain identifier.
pub open spec fn target_wf(t: TargetView) -> bool {
    match t {
        TargetView::NoTarget => true,
        TargetView::Columns(cs) => cs.len() > 0 && column_list_error(cs) is None,
        TargetView::Constraint(name) => is_identifier(name),
    }
}

/// The uniqueness constraint against which a conflict is checked.
pub enum ConflictTarget {
    /// A bare `ON CONFLICT`: any uniqueness violation.
    NoTarget,
    /// The unique index over these columns, in this order.
    Columns(Vec<Column>),
    /// The constraint of this name.
    Constraint(String),
}

impl View for ConflictTarget {
    type V = TargetView;

    open spec fn view(&self) -> TargetView {
        match self {
            ConflictTarget::NoTarget => TargetView::NoTarget,
            ConflictTarget::Columns(cs) => TargetView::Columns(column_views(cs@)),
            ConflictTarget::Constraint(name) => TargetView::Constraint(name@),
        }
    }
}

impl ConflictTarget {
    /// The unique index over one column.
    pub fn column(c: Column) -> (r: ConflictTarget)
        ensures
            r@ == TargetView::Columns(seq![c@]),
            c.wf() ==> target_wf(r@),
    {
        let ghost cv = c@;
        let mut cs: Vec<Column> = Vec::new();
        cs.push(c);
        assert(column_views(cs@) =~= seq![cv]);
        ConflictTarget::Columns(cs)
    }

    /// The unique index over the columns `cs`, in the given order.
    ///
    /// Fails when `cs` is empty, names a column twice, mixes tables, or
    /// holds a name that is not a plain identifier.
    pub fn columns(cs: Vec<Column>) -> (r: Result<ConflictTarget, CompositionError>)
        ensures
            r is Ok <==> cs@.len() > 0 && column_list_error(column_views(cs@)) is None,
            r matches Ok(t) ==> t@ == TargetView::Columns(column_views(cs@)) && target_wf(t@),
            r matches Err(e) ==> if cs@.len() == 0 {
                e == CompositionError::EmptyTarget
            } else {
                column_list_error(column_views(cs@)) == Some(e)
            },
    {
        if cs.len() == 0 {
            return Err(CompositionError::EmptyTarget);
        }
        match check_column_list(&cs) {
            Some(e) => Err(e),
            None => Ok(ConflictTarget::Columns(cs)),
        }
    }

    /// The SQL text of this target.
    pub fn render(&self) -> (r: String)
        ensures
            r@ == target_sql(self@),
    {
        match self {
            ConflictTarget::NoTarget => String::new(),
            ConflictTarget::Columns(cs) => {
                let ghost names = column_names(column_views(cs@));
                let mut list = String::new();
                let n = cs.len();
                let mut i: usize = 0;
                assert(names.take(0) =~= Seq::<Seq<char>>::empty());
                while i < n
                    invariant
                        n == cs@.len(),
                        names == column_names(column_views(cs@)),
                        i <= n,
                        list@ == comma_join(names.take(i as int)),
                    decreases n - i,
                {
                    assert(names[i as int] == cs@[i as int].name@);
                    append_listed(&mut list, cs[i].name.as_str(), Ghost(names), i);
                    i += 1;
                }
                assert(names.take(n as int) =~= names);
                let mut r = String::from_str("(");
                r.append(list.as_str());
                r.append(")");
                r
            },
            ConflictTarget::Constraint(name) => {
                let mut r = String::from_str("ON CONSTRAINT ");
                r.append(name.as_str());
                r
            },
        }
    }
}

/// The constraint named `name`.
///
/// Fails when `name` is not a plain identifier.
pub fn on_constraint(name: &str) -> (r: Result<ConflictTarget, CompositionError>)
    ensures
        r is Ok <==> is_identifier(name@),
        r matches Ok(t) ==> t@ == TargetView::Constraint(name@) && target_wf(t@),
        r matches Err(e) ==> e == CompositionError::InvalidIdentifier,
{
    if check_identifier(name) {
        Ok(ConflictTarget::Constraint(String::from_str(name)))
    } else {
        Err(CompositionError::InvalidIdentifier)
    }
}

} // verus!
