use vstd::prelude::*;
use crate::column::{check_column_list, column_list_error, column_views, Assignment, AssignmentView, Column, ColumnView};
use crate::error::CompositionError;
use crate::sql::{append_listed, comma_join};

verus! {

/// The mathematical value of a [`ConflictAction`].
pub enum ActionView {
    DoNothing,
    DoUpdate(Seq<AssignmentView>, Option<Seq<char>>),
}

/// The views of a vector of assignments.
pub open spec fn assignment_views(asg: Seq<Assignment>) -> Seq<AssignmentView> {
    asg.map_values(|a: Assignment| a@)
}

/// The columns that a list of assignments sets, in order.
pub open spec fn assignment_columns(asg: Seq<AssignmentView>) -> Seq<ColumnView> {
    asg.map_values(|a: AssignmentView| a.column)
}

/// The SQL text of one assignment: `column = value`.
pub open spec fn assignment_sql(a: AssignmentView) -> Seq<char> {
    a.column.name + " = "@ + a.value
}

/// The SQL text of the condition that restricts an update, if any.
pub open spec fn filter_sql(filter: Option<Seq<char>>) -> Seq<char> {
    match filter {
        Some(w) => " WHERE "@ + w,
        None => Seq::empty(),
    }
}

/// The SQL text of a conflict action.
pub open spec fn action_sql(a: ActionView) -> Seq<char> {
    match a {
        ActionView::DoNothing => "DO NOTHING"@,
        ActionView::DoUpdate(asg, filter) => "DO UPDATE SET "@ + comma_join(asg.map_values(|x: AssignmentView| assignment_sql(x)))
            + filter_sql(filter),
    }
}

/// An action that can be composed: an update sets at least one column, sets
/// no column twice, and sets only columns of one table.
pub open spec fn action_wf(a: ActionView) -> bool {
    match a {
        ActionView::DoNothing => true,
        ActionView::DoUpdate(asg, _) => asg.len() > 0 && column_list_error(assignment_columns(asg)) is None,
    }
}

/// What happens to a row whose insertion meets a conflict.
pub enum ConflictAction {
    /// The row is skipped.
    DoNothing,
    /// The existing row is updated with these assignments, in this order,
    /// where it meets the condition, if one is given.
    DoUpdate(Vec<Assignment>, Option<String>),
}

impl View for ConflictAction {
    type V = ActionView;

    open spec fn view(&self) -> ActionView {
        match self {
            ConflictAction::DoNothing => ActionView::DoNothing,
            ConflictAction::DoUpdate(asg, filter) => ActionView::DoUpdate(assignment_views(asg@), filter_view(*filter)),
        }
    }
}

/// Skip the conflicting row.
pub fn do_nothing() -> (r: ConflictAction)
    ensures
        r@ == ActionView::DoNothing,
{
    ConflictAction::DoNothing
}

fn columns_of(asg: &Vec<Assignment>) -> (r: Vec<Column>)
    ensures
        column_views(r@) == assignment_columns(assignment_views(asg@)),
{
    let mut r: Vec<Column> = Vec::new();
    let n = asg.len();
    let mut i: usize = 0;
    while i < n
        invariant
            n == asg@.len(),
            i <= n,
            r@.len() == i,
            column_views(r@) =~= assignment_columns(assignment_views(asg@)).take(i as int),
        decreases n - i,
    {
        let c = &asg[i].column;
        let copy = Column { table: c.table.clone(), name: c.name.clone() };
        let ghost cv = copy@;
        assert(cv == assignment_columns(assignment_views(asg@))[i as int]);
        r.push(copy);
        assert(r@[i as int]@ == cv);
        i += 1;
        assert(column_views(r@) =~= assignment_columns(assignment_views(asg@)).take(i as int));
    }
    assert(assignment_columns(assignment_views(asg@)).take(n as int) =~= assignment_columns(assignment_views(asg@)));
    r
}

/// The view of an optional condition.
pub open spec fn filter_view(filter: Option<String>) -> Option<Seq<char>> {
    match filter {
        Some(w) => Some(w@),
        None => None,
    }
}

fn update_action(assignments: Vec<Assignment>, filter: Option<String>) -> (r: Result<ConflictAction, CompositionError>)
    ensures
        r is Ok <==> action_wf(ActionView::DoUpdate(assignment_views(assignments@), filter_view(filter))),
        r matches Ok(a) ==> a@ == ActionView::DoUpdate(assignment_views(assignments@), filter_view(filter)),
        r matches Err(e) ==> if assignments@.len() == 0 {
            e == CompositionError::EmptyAssignments
        } else {
            column_list_error(assignment_columns(assignment_views(assignments@))) == Some(e)
        },
{
    if assignments.len() == 0 {
        return Err(CompositionError::EmptyAssignments);
    }
    let cs = columns_of(&assignments);
    match check_column_list(&cs) {
        Some(e) => Err(e),
        None => Ok(ConflictAction::DoUpdate(assignments, filter)),
    }
}

/// Update the conflicting row with `assignments`, in the given order.
///
/// Fails when the list is empty, sets a column twice, mixes tables, or holds
/// a name that is not a plain identifier.
pub fn do_update(assignments: Vec<Assignment>) -> (r: Result<ConflictAction, CompositionError>)
    ensures
        r is Ok <==> action_wf(ActionView::DoUpdate(assignment_views(assignments@), None)),
        r matches Ok(a) ==> a@ == ActionView::DoUpdate(assignment_views(assignments@), None),
        r matches Err(e) ==> if assignments@.len() == 0 {
            e == CompositionError::EmptyAssignments
        } else {
            column_list_error(assignment_columns(assignment_views(assignments@))) == Some(e)
        },
{
    update_action(assignments, None)
}

/// Update the conflicting row with `assignments` where `condition`, SQL
/// expression text, holds.
///
/// Fails on the same lists as [`do_update`].
pub fn do_update_where(assignments: Vec<Assignment>, condition: &str) -> (r: Result<ConflictAction, CompositionError>)
    ensures
        r is Ok <==> action_wf(ActionView::DoUpdate(assignment_views(assignments@), Some(condition@))),
        r matches Ok(a) ==> a@ == ActionView::DoUpdate(assignment_views(assignments@), Some(condition@)),
        r matches Err(e) ==> if assignments@.len() == 0 {
            e == CompositionError::EmptyAssignments
        } else {
            column_list_error(assignment_columns(assignment_views(assignments@))) == Some(e)
        },
{
    update_action(assignments, Some(String::from_str(condition)))
}

impl ConflictAction {
    /// The SQL text of this action.
    pub fn render(&self) -> (r: String)
        ensures
            r@ == action_sql(self@),
    {
        match self {
            ConflictAction::DoNothing => String::from_str("DO NOTHING"),
            ConflictAction::DoUpdate(asg, filter) => {
                let ghost items = assignment_views(asg@).map_values(|x: AssignmentView| assignment_sql(x));
                let mut list = String::new();
                let n = asg.len();
                let mut i: usize = 0;
                assert(items.take(0) =~= Seq::<Seq<char>>::empty());
                while i < n
                    invariant
                        n == asg@.len(),
                        items == assignment_views(asg@).map_values(|x: AssignmentView| assignment_sql(x)),
                        i <= n,
                        list@ == comma_join(items.take(i as int)),
                    decreases n - i,
                {
                    let a = &asg[i];
                    let mut item = a.column.name.clone();
                    item.append(" = ");
                    item.append(a.value.as_str());
                    assert(items[i as int] == item@);
                    append_listed(&mut list, item.as_str(), Ghost(items), i);
                    i += 1;
                }
                assert(items.take(n as int) =~= items);
                let mut r = String::from_str("DO UPDATE SET ");
                r.append(list.as_str());
                if let Some(w) = filter {
                    r.append(" WHERE ");
                    r.append(w.as_str());
                }
                r
            },
        }
    }
}

} // verus!
