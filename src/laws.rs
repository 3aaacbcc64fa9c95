use vstd::prelude::*;
use crate::action::{action_sql, assignment_sql, action_wf, assignment_columns, ActionView};
use crate::clause::{clause_sql, default_clause, ClauseView};
use crate::column::{AssignmentView, ColumnView};
use crate::sql::comma_join;
use crate::statement::{with_trailing_clause, InsertStatement};
use crate::target::{column_names, TargetView};
use crate::values::{InsertValues, OnConflictValues, UndecoratedInsertRecord};

verus! {

/// A column target followed by `DO NOTHING` renders as
/// `ON CONFLICT (c1, c2, ...) DO NOTHING`, with the column names in the
/// given order and unchanged.
pub proof fn lemma_columns_do_nothing(cs: Seq<ColumnView>)
    requires
        cs.len() > 0,
    ensures
        clause_sql(ClauseView { target: TargetView::Columns(cs), action: ActionView::DoNothing })
            == "ON CONFLICT ("@ + comma_join(column_names(cs)) + ") DO NOTHING"@,
{
    reveal_strlit("ON CONFLICT ");
    reveal_strlit("ON CONFLICT (");
    reveal_strlit("(");
    reveal_strlit(")");
    reveal_strlit(" ");
    reveal_strlit("DO NOTHING");
    reveal_strlit(") DO NOTHING");
    let j = comma_join(column_names(cs));
    assert("ON CONFLICT "@ + ("("@ + j + ")"@) + " "@ + "DO NOTHING"@ =~= "ON CONFLICT ("@ + j + ") DO NOTHING"@);
}

/// A constraint target followed by `DO NOTHING` renders as
/// `ON CONFLICT ON CONSTRAINT name DO NOTHING`, with the name unchanged.
pub proof fn lemma_constraint_do_nothing(name: Seq<char>)
    ensures
        clause_sql(ClauseView { target: TargetView::Constraint(name), action: ActionView::DoNothing })
            == "ON CONFLICT ON CONSTRAINT "@ + name + " DO NOTHING"@,
{
    reveal_strlit("ON CONFLICT ");
    reveal_strlit("ON CONSTRAINT ");
    reveal_strlit("ON CONFLICT ON CONSTRAINT ");
    reveal_strlit(" ");
    reveal_strlit("DO NOTHING");
    reveal_strlit(" DO NOTHING");
    assert("ON CONFLICT "@ + ("ON CONSTRAINT "@ + name) + " "@ + "DO NOTHING"@ =~= "ON CONFLICT ON CONSTRAINT "@ + name
        + " DO NOTHING"@);
}

/// An update with no assignment cannot be composed.
pub proof fn lemma_empty_update_rejected(filter: Option<Seq<char>>)
    ensures
        !action_wf(ActionView::DoUpdate(Seq::empty(), filter)),
{
}

/// An update that sets the same column twice cannot be composed.
pub proof fn lemma_duplicate_update_rejected(asg: Seq<AssignmentView>, filter: Option<Seq<char>>, i: int, j: int)
    requires
        0 <= i < j < asg.len(),
        asg[i].column.name == asg[j].column.name,
    ensures
        !action_wf(ActionView::DoUpdate(asg, filter)),
{
    let cs = assignment_columns(asg);
    assert(cs[i].name == cs[j].name);
}

/// An update of two columns renders as `DO UPDATE SET c1 = v1, c2 = v2`,
/// in the given order.
pub proof fn lemma_two_assignments(a: AssignmentView, b: AssignmentView)
    ensures
        action_sql(ActionView::DoUpdate(seq![a, b], None))
            == "DO UPDATE SET "@ + a.column.name + " = "@ + a.value + ", "@ + b.column.name + " = "@ + b.value,
{
    let items = seq![a, b].map_values(|x: AssignmentView| assignment_sql(x));
    assert(items.drop_last() =~= seq![items[0]]);
    assert(comma_join(items.drop_last()) == items[0]);
    assert(comma_join(items) == items[0] + ", "@ + items[1]);
    assert(action_sql(ActionView::DoUpdate(seq![a, b], None)) =~= "DO UPDATE SET "@ + a.column.name + " = "@ + a.value + ", "@
        + b.column.name + " = "@ + b.value);
}

/// Decorating the rows with `ON CONFLICT DO NOTHING` before they are handed
/// to the insert statement, or decorating the statement afterwards, gives
/// the same trailing clause, so the same SQL after the same rows; the rows
/// alone carry none.
pub proof fn lemma_decoration_paths_agree<U: UndecoratedInsertRecord>(
    rows: &U,
    before: OnConflictValues<&U>,
    after: InsertStatement<OnConflictValues<U>>,
    rows_sql: Seq<char>,
)
    requires
        before.records == rows,
        before.clause@ == default_clause(),
        after.records.records == *rows,
        after.records.clause@ == default_clause(),
    ensures
        rows.conflict_clause() is None,
        before.conflict_clause() == after.records.conflict_clause(),
        with_trailing_clause(rows_sql, before.conflict_clause())
            == with_trailing_clause(rows_sql, after.records.conflict_clause()),
        with_trailing_clause(rows_sql, before.conflict_clause()) == rows_sql + " "@ + clause_sql(default_clause()),
{
    rows.lemma_undecorated();
}

} // verus!
