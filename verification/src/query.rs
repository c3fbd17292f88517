//! Assembling the statement from a session.

use vstd::prelude::*;
use crate::app::App;
use crate::flags::{OrderdFlag, SelectedFlag};
use crate::sql::{
    count_present, fragment_views, order_fragments, push_clause, push_joined, query_text,
    select_fragments, where_fragments,
};

verus! {

impl App {
    /// Per column: its name if it is selected.
    fn selected_names(&self) -> (frags: Vec<Option<String>>)
        requires
            self.wf(),
        ensures
            fragment_views(frags@) == select_fragments(self@.columns, self@.specs),
    {
        let mut frags: Vec<Option<String>> = Vec::new();
        let mut i: usize = 0;
        while i < self.base_columns.len()
            invariant
                self.wf(),
                i <= self.base_columns@.len(),
                frags@.len() == i,
                fragment_views(frags@) == select_fragments(self@.columns, self@.specs).take(i as int),
            decreases self.base_columns@.len() - i,
        {
            let ghost before = frags@;
            let frag = match self.specified_columns.selected_columns[i] {
                SelectedFlag::Selected => Some(self.base_columns[i].clone()),
                SelectedFlag::NotSelected => None,
            };
            frags.push(frag);
            proof {
                let all = select_fragments(self@.columns, self@.specs);
                assert forall|j: int| 0 <= j < i + 1 implies fragment_views(frags@)[j] == all.take(
                    i + 1,
                )[j] by {
                    if j < i {
                        assert(frags@[j] == before[j]);
                        assert(fragment_views(before)[j] == all.take(i as int)[j]);
                    }
                }
                assert(fragment_views(frags@) =~= all.take(i + 1));
            }
            i = i + 1;
        }
        proof {
            assert(fragment_views(frags@) =~= select_fragments(self@.columns, self@.specs));
        }
        frags
    }

    /// Per column: its name, a space and its predicate, if it has one.
    fn constraints(&self) -> (frags: Vec<Option<String>>)
        requires
            self.wf(),
        ensures
            fragment_views(frags@) == where_fragments(self@.columns, self@.specs),
    {
        let mut frags: Vec<Option<String>> = Vec::new();
        let mut i: usize = 0;
        while i < self.base_columns.len()
            invariant
                self.wf(),
                i <= self.base_columns@.len(),
                frags@.len() == i,
                fragment_views(frags@) == where_fragments(self@.columns, self@.specs).take(i as int),
            decreases self.base_columns@.len() - i,
        {
            let ghost before = frags@;
            let frag = match &self.specified_columns.where_constraints[i] {
                Some(constraint) => {
                    let mut text = self.base_columns[i].clone();
                    text.push_str(" ");
                    text.push_str(constraint.as_str());
                    Some(text)
                },
                None => None,
            };
            frags.push(frag);
            proof {
                let all = where_fragments(self@.columns, self@.specs);
                assert forall|j: int| 0 <= j < i + 1 implies fragment_views(frags@)[j] == all.take(
                    i + 1,
                )[j] by {
                    if j < i {
                        assert(frags@[j] == before[j]);
                        assert(fragment_views(before)[j] == all.take(i as int)[j]);
                    }
                }
                assert(fragment_views(frags@) =~= all.take(i + 1));
            }
            i = i + 1;
        }
        proof {
            assert(fragment_views(frags@) =~= where_fragments(self@.columns, self@.specs));
        }
        frags
    }

    /// Per column: its name and its direction, if it is ordered.
    fn orderings(&self) -> (frags: Vec<Option<String>>)
        requires
            self.wf(),
        ensures
            fragment_views(frags@) == order_fragments(self@.columns, self@.specs),
    {
        let mut frags: Vec<Option<String>> = Vec::new();
        let mut i: usize = 0;
        while i < self.base_columns.len()
            invariant
                self.wf(),
                i <= self.base_columns@.len(),
                frags@.len() == i,
                fragment_views(frags@) == order_fragments(self@.columns, self@.specs).take(i as int),
            decreases self.base_columns@.len() - i,
        {
            let ghost before = frags@;
            let frag = match self.specified_columns.ordered_columns[i] {
                OrderdFlag::Asc => {
                    let mut text = self.base_columns[i].clone();
                    text.push_str(" ASC");
                    Some(text)
                },
                OrderdFlag::Desc => {
                    let mut text = self.base_columns[i].clone();
                    text.push_str(" DESC");
                    Some(text)
                },
                OrderdFlag::Off => None,
            };
            frags.push(frag);
            proof {
                let all = order_fragments(self@.columns, self@.specs);
                assert forall|j: int| 0 <= j < i + 1 implies fragment_views(frags@)[j] == all.take(
                    i + 1,
                )[j] by {
                    if j < i {
                        assert(frags@[j] == before[j]);
                        assert(fragment_views(before)[j] == all.take(i as int)[j]);
                    }
                }
                assert(fragment_views(frags@) =~= all.take(i + 1));
            }
            i = i + 1;
        }
        proof {
            assert(fragment_views(frags@) =~= order_fragments(self@.columns, self@.specs));
        }
        frags
    }

    /// The statement that the session specifies, on the table `table_name`.
    pub fn generate_query(self, table_name: &String) -> (sql: String)
        requires
            self.wf(),
        ensures
            sql@ == query_text(table_name@, self@.columns, self@.specs),
    {
        let mut sql = String::new();
        sql.push_str("SELECT ");
        let names = self.selected_names();
        let num_of_selected_columns = count_present(&names);
        if num_of_selected_columns == self.base_columns.len() || num_of_selected_columns == 0 {
            sql.push_str("*");
        } else {
            push_joined(&mut sql, ", ", &names);
        }
        sql.push_str(" FROM ");
        sql.push_str(table_name.as_str());
        let constraints = self.constraints();
        push_clause(&mut sql, " WHERE ", " AND ", &constraints);
        let orderings = self.orderings();
        push_clause(&mut sql, " ORDER BY ", ", ", &orderings);
        sql.push_str(";");
        proof {
            assert(sql@ =~= query_text(table_name@, self@.columns, self@.specs));
        }
        sql
    }
}

} // verus!
