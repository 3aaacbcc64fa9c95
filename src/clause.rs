use vstd::prelude::*;
use crate::action::{action_sql, action_wf, assignment_columns, ActionView, ConflictAction};
use crate::column::{Column, ColumnView};
use crate::target::{target_sql, target_wf, ConflictTarget, TargetView};

verus! {

/// The mathematical value of an [`OnConflictClause`].
pub struct ClauseView {
    pub target: TargetView,
    pub action: ActionView,
}

/// The SQL text of a clause. Without a target, the action follows
/// `ON CONFLICT` after a single space.
pub open spec fn clause_sql(c: ClauseView) -> Seq<char> {
    match c.target {
        TargetView::NoTarget => "ON CONFLICT "@ + action_sql(c.action),
        _ => "ON CONFLICT "@ + target_sql(c.target) + " "@ + action_sql(c.action),
    }
}

/// The clause that no target and no update make: `ON CONFLICT DO NOTHING`.
pub open spec fn default_clause() -> ClauseView {
    ClauseView { target: TargetView::NoTarget, action: ActionView::DoNothing }
}

/// Every column that a clause names: those of its target, then those of its
/// update.
pub open spec fn clause_columns(c: ClauseView) -> Seq<ColumnView> {
    let t = match c.target {
        TargetView::Columns(cs) => cs,
        _ => Seq::empty(),
    };
    let a = match c.action {
        ActionView::DoUpdate(asg, _) => assignment_columns(asg),
        _ => Seq::empty(),
    };
    t + a
}

/// Every column of the clause belongs to `table`.
pub open spec fn clause_within_table(c: ClauseView, table: Seq<char>) -> bool {
    forall|i: int| 0 <= i < clause_columns(c).len() ==> (#[trigger] clause_columns(c)[i]).table == table
}

/// A conflict target paired with the action taken on a conflict.
pub struct OnConflictClause {
    pub target: ConflictTarget,
    pub action: ConflictAction,
}

impl View for OnConflictClause {
    type V = ClauseView;

    open spec fn view(&self) -> ClauseView {
        ClauseView { target: self.target@, action: self.action@ }
    }
}

fn all_in_table(cs: &Vec<Column>, table: &str) -> (r: bool)
    ensures
        r == forall|i: int| 0 <= i < cs@.len() ==> (#[trigger] cs@[i]).table@ == table@,
{
    let t = String::from_str(table);
    let n = cs.len();
    let mut i: usize = 0;
    while i < n
        invariant
            n == cs@.len(),
            t@ == table@,
            i <= n,
            forall|k: int| 0 <= k < i ==> (#[trigger] cs@[k]).table@ == table@,
        decreases n - i,
    {
        if cs[i].table != t {
            return false;
        }
        i += 1;
    }
    true
}

impl OnConflictClause {
    /// Both halves can be composed.
    pub open spec fn wf(&self) -> bool {
        target_wf(self.target@) && action_wf(self.action@)
    }

    /// The clause made of `target` and `action`, taken as they are.
    pub fn new(target: ConflictTarget, action: ConflictAction) -> (r: OnConflictClause)
        ensures
            r@ == (ClauseView { target: target@, action: action@ }),
    {
        OnConflictClause { target, action }
    }

    /// `ON CONFLICT DO NOTHING`: no target, and no update.
    pub fn do_nothing() -> (r: OnConflictClause)
        ensures
            r@ == default_clause(),
            r.wf(),
    {
        OnConflictClause { target: ConflictTarget::NoTarget, action: ConflictAction::DoNothing }
    }

    /// The SQL text of this clause.
    pub fn render(&self) -> (r: String)
        ensures
            r@ == clause_sql(self@),
    {
        let mut r = String::from_str("ON CONFLICT ");
        match &self.target {
            ConflictTarget::NoTarget => {},
            _ => {
                let t = self.target.render();
                r.append(t.as_str());
                r.append(" ");
            },
        }
        let a = self.action.render();
        r.append(a.as_str());
        r
    }

    /// Tells whether every column that the clause names belongs to `table`.
    pub fn within_table(&self, table: &str) -> (r: bool)
        ensures
            r == clause_within_table(self@, table@),
    {
        let target_ok = match &self.target {
            ConflictTarget::Columns(cs) => all_in_table(cs, table),
            _ => true,
        };
        let action_ok = match &self.action {
            ConflictAction::DoUpdate(asg, _) => {
                let t = String::from_str(table);
                let n = asg.len();
                let mut i: usize = 0;
                let mut ok = true;
                while i < n
                    invariant
                        n == asg@.len(),
                        t@ == table@,
                        i <= n,
                        ok == forall|k: int| 0 <= k < i ==> (#[trigger] asg@[k]).column.table@ == table@,
                    decreases n - i,
                {
                    if asg[i].column.table != t {
                        ok = false;
                    }
                    i += 1;
                }
                ok
            },
            _ => true,
        };
        let ghost cc = clause_columns(self@);
        proof {
            let ghost tl = match self@.target {
                TargetView::Columns(cs) => cs,
                _ => Seq::empty(),
            };
            let ghost al = match self@.action {
                ActionView::DoUpdate(asg, _) => assignment_columns(asg),
                _ => Seq::empty(),
            };
            assert(cc == tl + al);
            if target_ok && action_ok {
                assert forall|i: int| 0 <= i < cc.len() implies (#[trigger] cc[i]).table == table@ by {
                    if i < tl.len() {
                        assert(cc[i] == tl[i]);
                    } else {
                        assert(cc[i] == al[i - tl.len()]);
                    }
                }
            } else if !target_ok {
                let cs = self.target->Columns_0;
                let k = choose|k: int| 0 <= k < cs@.len() && (#[trigger] cs@[k]).table@ != table@;
                assert(cc[k] == tl[k]);
            } else {
                let asg = self.action->DoUpdate_0;
                let k = choose|k: int| 0 <= k < asg@.len() && (#[trigger] asg@[k]).column.table@ != table@;
                assert(cc[tl.len() + k] == al[k]);
            }
        }
        target_ok && action_ok
    }
}

} // verus!
