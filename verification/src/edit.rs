//! Editing the predicate of a column: the edit session and its buffer.

use vstd::prelude::*;
use crate::app::App;
use crate::flags::{AppState, CurrentTab, CurrentlyEditing};

verus! {

impl App {
    /// While running on the Where tab, opens an edit session on a column:
    /// the cursor goes to it and the buffer holds its predicate, if it has
    /// one, and is empty otherwise. In any other situation, nothing.
    pub fn begin_edit(&mut self, column_index: usize)
        requires
            old(self).wf(),
            column_index < old(self).base_columns@.len(),
        ensures
            final(self).wf(),
            final(self)@ == old(self)@.begin_edit(column_index as int),
    {
        if self.state == AppState::Running && self.current_tab == CurrentTab::Where {
            self.state = AppState::Editing;
            self.currently_editing = Some(CurrentlyEditing::Constraint);
            self.current_column = column_index;
            match &self.specified_columns.where_constraints[column_index] {
                Some(existing_constraint) => {
                    self.constraint_input = existing_constraint.clone();
                },
                None => {
                    self.constraint_input = String::new();
                },
            }
        }
        proof {
            assert(self@ =~= old(self)@.begin_edit(column_index as int));
        }
    }

    /// While editing, appends a character to the buffer; otherwise nothing.
    pub fn push_char(&mut self, c: char)
        ensures
            final(self).wf() == old(self).wf(),
            final(self)@ == old(self)@.push_char(c),
    {
        if self.state == AppState::Editing {
            self.constraint_input.push(c);
        }
        proof {
            assert(self@ =~= old(self)@.push_char(c));
        }
    }

    /// While editing, removes the last character of the buffer, if it has
    /// one; otherwise nothing.
    pub fn pop_char(&mut self)
        ensures
            final(self).wf() == old(self).wf(),
            final(self)@ == old(self)@.pop_char(),
    {
        if self.state == AppState::Editing {
            let _ = self.constraint_input.pop();
        }
        proof {
            assert(self@ =~= old(self)@.pop_char());
        }
    }

    /// Stores the buffer, whatever it holds, as the predicate of the column
    /// under the cursor, in place of the one it had; empties the buffer and
    /// drops the edit session. The run state stays.
    pub fn save_constraint(&mut self)
        requires
            old(self).wf(),
        ensures
            final(self).wf(),
            final(self)@ == old(self)@.save_constraint(),
    {
        let constraint = self.constraint_input.clone();
        self.specified_columns.where_constraints.set(self.current_column, Some(constraint));
        self.constraint_input = String::new();
        self.currently_editing = None;
        proof {
            assert(self@ =~= old(self)@.save_constraint());
        }
    }

    /// Empties the buffer.
    pub fn clear_constraint(&mut self)
        ensures
            final(self).wf() == old(self).wf(),
            final(self)@ == old(self)@.clear_constraint(),
    {
        self.constraint_input = String::new();
        proof {
            assert(self@ =~= old(self)@.clear_constraint());
        }
    }

    /// While editing, stores the buffer as the predicate of the column under
    /// the cursor and returns to running; otherwise nothing.
    pub fn commit(&mut self)
        requires
            old(self).wf(),
        ensures
            final(self).wf(),
            final(self)@ == old(self)@.commit(),
    {
        if self.state == AppState::Editing {
            self.save_constraint();
            self.state = AppState::Running;
        }
        proof {
            assert(self@ =~= old(self)@.commit());
        }
    }

    /// While editing, drops the buffer and the edit session and returns to
    /// running, with every predicate as it was; otherwise nothing.
    pub fn cancel(&mut self)
        ensures
            final(self).wf() == old(self).wf(),
            final(self)@ == old(self)@.cancel(),
            final(self)@.specs == old(self)@.specs,
    {
        if self.state == AppState::Editing {
            self.state = AppState::Running;
            self.clear_constraint();
            self.currently_editing = None;
        }
        proof {
            assert(self@ =~= old(self)@.cancel());
        }
    }
}

} // verus!
