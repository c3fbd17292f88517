//! The session itself: the schema it was opened on, the per-column
//! specifications, and the operations that a front end calls on it.

use vstd::prelude::*;
pub use crate::flags::{AppState, CurrentTab, CurrentlyEditing, OrderdFlag, SelectedFlag};
use crate::model::{AppView, ColumnSpecification};
pub use crate::schema::{column_names, distinct, schema_path, SchemaError, Table};

verus! {

/// What is specified for the columns: three vectors, each with one entry per
/// column of the schema.
#[derive(Debug)]
pub struct SpecifiedColumns {
    pub selected_columns: Vec<SelectedFlag>,
    pub ordered_columns: Vec<OrderdFlag>,
    pub where_constraints: Vec<Option<String>>,
}

impl View for SpecifiedColumns {
    type V = Seq<ColumnSpecification>;

    open spec fn view(&self) -> Seq<ColumnSpecification> {
        Seq::new(
            self.selected_columns@.len(),
            |i: int|
                ColumnSpecification {
                    selected: self.selected_columns@[i],
                    order: self.ordered_columns@[i],
                    predicate: match self.where_constraints@[i] {
                        Some(p) => Some(p@),
                        None => None,
                    },
                },
        )
    }
}

impl Default for SpecifiedColumns {
    fn default() -> (specified: SpecifiedColumns)
        ensures
            specified.wf(),
            specified@ == Seq::<ColumnSpecification>::empty(),
    {
        let specified = SpecifiedColumns::new(0);
        proof {
            assert(specified@ =~= Seq::<ColumnSpecification>::empty());
        }
        specified
    }
}

impl SpecifiedColumns {
    /// The three vectors have one length.
    pub open spec fn wf(&self) -> bool {
        &&& self.ordered_columns@.len() == self.selected_columns@.len()
        &&& self.where_constraints@.len() == self.selected_columns@.len()
    }

    /// For `len` columns: none selected, none ordered, none with a predicate.
    pub fn new(len: usize) -> (specified: SpecifiedColumns)
        ensures
            specified.wf(),
            specified@ == Seq::new(len as nat, |i: int| ColumnSpecification::initial()),
    {
        let mut selected_columns: Vec<SelectedFlag> = Vec::new();
        let mut ordered_columns: Vec<OrderdFlag> = Vec::new();
        let mut where_constraints: Vec<Option<String>> = Vec::new();
        let mut i: usize = 0;
        while i < len
            invariant
                i <= len,
                selected_columns@.len() == i,
                ordered_columns@.len() == i,
                where_constraints@.len() == i,
                forall|j: int| 0 <= j < i ==> selected_columns@[j] == SelectedFlag::NotSelected,
                forall|j: int| 0 <= j < i ==> ordered_columns@[j] == OrderdFlag::Off,
                forall|j: int| 0 <= j < i ==> where_constraints@[j].is_none(),
            decreases len - i,
        {
            selected_columns.push(SelectedFlag::NotSelected);
            ordered_columns.push(OrderdFlag::Off);
            where_constraints.push(None);
            i = i + 1;
        }
        let specified = SpecifiedColumns { selected_columns, ordered_columns, where_constraints };
        proof {
            assert(specified@ =~= Seq::new(len as nat, |i: int| ColumnSpecification::initial()));
        }
        specified
    }
}

/// A session on one schema.
#[derive(Debug)]
pub struct App {
    pub state: AppState,
    pub current_tab: CurrentTab,
    pub base_columns: Vec<String>,
    pub current_column: usize,
    pub specified_columns: SpecifiedColumns,
    pub constraint_input: String,
    pub currently_editing: Option<CurrentlyEditing>,
}

impl View for App {
    type V = AppView;

    open spec fn view(&self) -> AppView {
        AppView {
            state: self.state,
            tab: self.current_tab,
            columns: column_names(self.base_columns@),
            cursor: self.current_column as int,
            specs: self.specified_columns@,
            buffer: self.constraint_input@,
            editing: self.currently_editing.is_some(),
        }
    }
}

impl App {
    /// The three vectors of specifications are as long as the schema, which
    /// has a column, and the cursor is on a column.
    pub open spec fn wf(&self) -> bool {
        &&& self.specified_columns.wf()
        &&& self@.wf()
    }

    /// Whether the session is well formed.
    pub fn is_valid(&self) -> (valid: bool)
        ensures
            valid == self.wf(),
    {
        let len = self.base_columns.len();
        len > 0 && self.current_column < len && self.specified_columns.selected_columns.len() == len
            && self.specified_columns.ordered_columns.len() == len
            && self.specified_columns.where_constraints.len() == len
    }

    /// The session that starts on a schema: running, on the first tab and
    /// the first column, with nothing specified.
    pub fn new(table: Table) -> (app: App)
        ensures
            app.wf(),
            app@ == AppView::initial(table@),
            distinct(app@.columns),
    {
        let base_columns = table.into_columns();
        let len = base_columns.len();
        let app = App {
            state: AppState::Running,
            current_tab: CurrentTab::Init,
            base_columns,
            current_column: 0,
            specified_columns: SpecifiedColumns::new(len),
            constraint_input: String::new(),
            currently_editing: None,
        };
        proof {
            assert(app@ =~= AppView::initial(table@));
        }
        app
    }

    pub fn next_tab(&mut self)
        requires
            old(self).wf(),
        ensures
            final(self).wf(),
            final(self)@ == old(self)@.next_tab(),
            final(self).current_column == 0,
    {
        self.current_tab = self.current_tab.next();
        self.current_column = 0;
        proof {
            assert(self@ =~= old(self)@.next_tab());
        }
    }

    pub fn previous_tab(&mut self)
        requires
            old(self).wf(),
        ensures
            final(self).wf(),
            final(self)@ == old(self)@.previous_tab(),
            final(self).current_column == 0,
    {
        self.current_tab = self.current_tab.previous();
        self.current_column = 0;
        proof {
            assert(self@ =~= old(self)@.previous_tab());
        }
    }

    pub fn quit(&mut self)
        ensures
            final(self).wf() == old(self).wf(),
            final(self)@ == old(self)@.quit(),
    {
        self.state = AppState::Quitting;
        proof {
            assert(self@ =~= old(self)@.quit());
        }
    }

    /// Move to the previous column
    pub fn previous_column(&mut self)
        requires
            old(self).wf(),
        ensures
            final(self).wf(),
            final(self)@ == old(self)@.previous_column(),
    {
        if self.current_column > 0 {
            self.current_column = self.current_column - 1;
        } else {
            self.current_column = self.base_columns.len() - 1;
        }
        proof {
            assert(self@ =~= old(self)@.previous_column());
        }
    }

    /// Move to the next column
    pub fn next_column(&mut self)
        requires
            old(self).wf(),
        ensures
            final(self).wf(),
            final(self)@ == old(self)@.next_column(),
    {
        if self.current_column < self.base_columns.len() - 1 {
            self.current_column = self.current_column + 1;
        } else {
            self.current_column = 0;
        }
        proof {
            assert(self@ =~= old(self)@.next_column());
        }
    }

    /// On the Select tab, flips the selection of the column under the
    /// cursor; on another tab, nothing.
    pub fn toggle_select(&mut self)
        requires
            old(self).wf(),
        ensures
            final(self).wf(),
            final(self)@ == old(self)@.toggle_select(),
    {
        if self.current_tab == CurrentTab::Select {
            let at = self.current_column;
            let flag = self.specified_columns.selected_columns[at].toggled();
            self.specified_columns.selected_columns.set(at, flag);
        }
        proof {
            assert(self@ =~= old(self)@.toggle_select());
        }
    }

    /// On the Select tab, selects every column; on another tab, nothing.
    pub fn select_all(&mut self)
        requires
            old(self).wf(),
        ensures
            final(self).wf(),
            final(self)@ == old(self)@.select_all(),
    {
        if self.current_tab == CurrentTab::Select {
            let len = self.base_columns.len();
            let mut i: usize = 0;
            while i < len
                invariant
                    i <= len,
                    len == self.base_columns@.len(),
                    self.wf(),
                    self.state == old(self).state,
                    self.current_tab == old(self).current_tab,
                    self.base_columns == old(self).base_columns,
                    self.current_column == old(self).current_column,
                    self.constraint_input == old(self).constraint_input,
                    self.currently_editing == old(self).currently_editing,
                    self.specified_columns.ordered_columns == old(
                        self,
                    ).specified_columns.ordered_columns,
                    self.specified_columns.where_constraints == old(
                        self,
                    ).specified_columns.where_constraints,
                    forall|j: int|
                        0 <= j < i ==> self.specified_columns.selected_columns@[j]
                            == SelectedFlag::Selected,
                decreases len - i,
            {
                self.specified_columns.selected_columns.set(i, SelectedFlag::Selected);
                i = i + 1;
            }
        }
        proof {
            assert(self@ =~= old(self)@.select_all());
        }
    }

    /// On the OrderBy tab, advances the order of the column under the cursor
    /// by one step of the cycle ascending, descending, off; on another tab,
    /// nothing.
    pub fn cycle_order(&mut self)
        requires
            old(self).wf(),
        ensures
            final(self).wf(),
            final(self)@ == old(self)@.cycle_order(),
    {
        if self.current_tab == CurrentTab::OrderBy {
            let at = self.current_column;
            let flag = self.specified_columns.ordered_columns[at].cycled();
            self.specified_columns.ordered_columns.set(at, flag);
        }
        proof {
            assert(self@ =~= old(self)@.cycle_order());
        }
    }
}

} // verus!
