//! The mathematical model of a session: plain values, and the transitions
//! between them as spec functions. The executable types of the library are
//! specified against this model.

use vstd::prelude::*;
use crate::flags::{AppState, CurrentTab, OrderdFlag, SelectedFlag};

verus! {

/// What is specified for one column of the schema.
#[verifier::ext_equal]
pub struct ColumnSpecification {
    pub selected: SelectedFlag,
    pub order: OrderdFlag,
    pub predicate: Option<Seq<char>>,
}

/// A session as plain values: the schema's column names in declaration
/// order, one specification per column, the cursor, and the edit buffer.
#[verifier::ext_equal]
pub struct AppView {
    pub state: AppState,
    pub tab: CurrentTab,
    pub columns: Seq<Seq<char>>,
    pub cursor: int,
    pub specs: Seq<ColumnSpecification>,
    pub buffer: Seq<char>,
    pub editing: bool,
}

impl ColumnSpecification {
    /// The specification of a column that nothing was done to.
    pub open spec fn initial() -> ColumnSpecification {
        ColumnSpecification {
            selected: SelectedFlag::NotSelected,
            order: OrderdFlag::Off,
            predicate: None,
        }
    }
}

impl AppView {
    /// There is at least one column, each column has its specification, and
    /// the cursor is on a column.
    pub open spec fn wf(self) -> bool {
        &&& self.columns.len() > 0
        &&& self.specs.len() == self.columns.len()
        &&& 0 <= self.cursor < self.columns.len()
    }

    /// The session that starts on a schema.
    pub open spec fn initial(columns: Seq<Seq<char>>) -> AppView {
        AppView {
            state: AppState::Running,
            tab: CurrentTab::Init,
            columns,
            cursor: 0,
            specs: Seq::new(columns.len(), |i: int| ColumnSpecification::initial()),
            buffer: Seq::empty(),
            editing: false,
        }
    }

    /// One tab to the right, clamped at the last; the cursor returns to the
    /// first column.
    pub open spec fn next_tab(self) -> AppView {
        AppView { tab: self.tab.spec_next(), cursor: 0, ..self }
    }

    /// One tab to the left, clamped at the first; the cursor returns to the
    /// first column.
    pub open spec fn previous_tab(self) -> AppView {
        AppView { tab: self.tab.spec_previous(), cursor: 0, ..self }
    }

    /// The session ends.
    pub open spec fn quit(self) -> AppView {
        AppView { state: AppState::Quitting, ..self }
    }

    /// One column up; from the first column to the last.
    pub open spec fn previous_column(self) -> AppView {
        AppView {
            cursor: if self.cursor > 0 {
                self.cursor - 1
            } else {
                self.columns.len() - 1
            },
            ..self
        }
    }

    /// One column down; from the last column to the first.
    pub open spec fn next_column(self) -> AppView {
        AppView {
            cursor: if self.cursor < self.columns.len() - 1 {
                self.cursor + 1
            } else {
                0
            },
            ..self
        }
    }

    /// `next_column` applied `steps` times.
    pub open spec fn next_column_times(self, steps: nat) -> AppView
        decreases steps,
    {
        if steps == 0 {
            self
        } else {
            self.next_column_times((steps - 1) as nat).next_column()
        }
    }

    /// On the Select tab, flips the selection of the column under the cursor.
    pub open spec fn toggle_select(self) -> AppView {
        if self.tab == CurrentTab::Select {
            let at = self.specs[self.cursor];
            AppView {
                specs: self.specs.update(
                    self.cursor,
                    ColumnSpecification { selected: at.selected.spec_toggled(), ..at },
                ),
                ..self
            }
        } else {
            self
        }
    }

    /// On the Select tab, selects every column.
    pub open spec fn select_all(self) -> AppView {
        if self.tab == CurrentTab::Select {
            AppView {
                specs: Seq::new(
                    self.specs.len(),
                    |i: int| ColumnSpecification { selected: SelectedFlag::Selected, ..self.specs[i] },
                ),
                ..self
            }
        } else {
            self
        }
    }

    /// On the OrderBy tab, advances the order of the column under the cursor.
    pub open spec fn cycle_order(self) -> AppView {
        if self.tab == CurrentTab::OrderBy {
            let at = self.specs[self.cursor];
            AppView {
                specs: self.specs.update(
                    self.cursor,
                    ColumnSpecification { order: at.order.spec_cycled(), ..at },
                ),
                ..self
            }
        } else {
            self
        }
    }

    /// While running on the Where tab, opens an edit session on the column
    /// `column`, with that column's predicate, if it has one, in the buffer.
    pub open spec fn begin_edit(self, column: int) -> AppView {
        if self.state == AppState::Running && self.tab == CurrentTab::Where {
            AppView {
                state: AppState::Editing,
                editing: true,
                cursor: column,
                buffer: match self.specs[column].predicate {
                    Some(p) => p,
                    None => Seq::empty(),
                },
                ..self
            }
        } else {
            self
        }
    }

    /// While editing, appends a character to the buffer.
    pub open spec fn push_char(self, c: char) -> AppView {
        if self.state == AppState::Editing {
            AppView { buffer: self.buffer.push(c), ..self }
        } else {
            self
        }
    }

    /// While editing, removes the buffer's last character, if it has one.
    pub open spec fn pop_char(self) -> AppView {
        if self.state == AppState::Editing && self.buffer.len() > 0 {
            AppView { buffer: self.buffer.drop_last(), ..self }
        } else {
            self
        }
    }

    /// The buffer becomes the predicate of the column under the cursor; the
    /// buffer is emptied and the edit session is gone.
    pub open spec fn save_constraint(self) -> AppView {
        let at = self.specs[self.cursor];
        AppView {
            specs: self.specs.update(
                self.cursor,
                ColumnSpecification { predicate: Some(self.buffer), ..at },
            ),
            buffer: Seq::empty(),
            editing: false,
            ..self
        }
    }

    /// The buffer is emptied.
    pub open spec fn clear_constraint(self) -> AppView {
        AppView { buffer: Seq::empty(), ..self }
    }

    /// While editing, stores the buffer as the predicate and returns to
    /// running.
    pub open spec fn commit(self) -> AppView {
        if self.state == AppState::Editing {
            AppView { state: AppState::Running, ..self.save_constraint() }
        } else {
            self
        }
    }

    /// While editing, drops the buffer and returns to running; no predicate
    /// changes.
    pub open spec fn cancel(self) -> AppView {
        if self.state == AppState::Editing {
            AppView { state: AppState::Running, editing: false, ..self.clear_constraint() }
        } else {
            self
        }
    }
}

} // verus!
