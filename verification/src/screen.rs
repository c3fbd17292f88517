//! What a front end shows: the rows of the current tab, one per visible
//! column, each tab's title and colour, and the popup of an edit session.

use vstd::prelude::*;
use crate::app::App;
use crate::flags::{CurrentTab, OrderdFlag, SelectedFlag};
use crate::model::{AppView, ColumnSpecification};

verus! {

/// How many columns above the cursor stay in the list.
pub const ROWS_ABOVE_CURSOR: usize = 4;

/// One row of the list, as plain values.
#[verifier::ext_equal]
pub struct RowView {
    pub text: Seq<char>,
    pub highlighted: bool,
}

/// One row of the list.
#[derive(Debug)]
pub struct Row {
    pub text: String,
    pub highlighted: bool,
}

impl View for Row {
    type V = RowView;

    open spec fn view(&self) -> RowView {
        RowView { text: self.text@, highlighted: self.highlighted }
    }
}

/// The rows of a vector, as plain values.
pub open spec fn row_views(rows: Seq<Row>) -> Seq<RowView> {
    Seq::new(rows.len(), |i: int| rows[i]@)
}

/// The first column that is listed when the cursor is on `cursor`.
pub open spec fn first_visible(cursor: int) -> int {
    if cursor >= ROWS_ABOVE_CURSOR {
        cursor - ROWS_ABOVE_CURSOR
    } else {
        0
    }
}

/// The text of a column's row on a tab: on Select a check mark before the
/// name of a selected column; on OrderBy an arrow up or down before the name
/// of an ordered column; on Where the predicate after the name; the bare
/// name otherwise.
pub open spec fn row_text(tab: CurrentTab, name: Seq<char>, spec: ColumnSpecification) -> Seq<
    char,
> {
    match tab {
        CurrentTab::Init => name,
        CurrentTab::Select => match spec.selected {
            SelectedFlag::Selected => "✓ "@ + name,
            SelectedFlag::NotSelected => name,
        },
        CurrentTab::OrderBy => match spec.order {
            OrderdFlag::Asc => "↑ "@ + name,
            OrderdFlag::Desc => "↓ "@ + name,
            OrderdFlag::Off => name,
        },
        CurrentTab::Where => match spec.predicate {
            Some(p) => name + " "@ + p,
            None => name,
        },
    }
}

/// The colours that tabs are drawn in.
#[derive(Clone, Copy, PartialEq, Eq, Structural, Debug)]
pub enum TabColor {
    Orange,
    Blue,
    Purple,
    Emerald,
}

/// What the popup of an edit session shows, as plain values.
#[verifier::ext_equal]
pub struct PopupView {
    pub column: Seq<char>,
    pub constraint: Seq<char>,
}

/// What the popup of an edit session shows: the name of the column that is
/// edited, and the buffer.
#[derive(Debug)]
pub struct Popup {
    pub column: String,
    pub constraint: String,
}

impl View for Popup {
    type V = PopupView;

    open spec fn view(&self) -> PopupView {
        PopupView { column: self.column@, constraint: self.constraint@ }
    }
}

/// The share that is left free on each side of a part that takes `percent`
/// of the whole, in percent: half of the rest, rounded down.
pub fn side_margin(percent: u16) -> (margin: u16)
    requires
        percent <= 100,
    ensures
        margin == (100 - percent) / 2,
        99 <= margin + percent + margin <= 100,
{
    (100 - percent) / 2
}

impl CurrentTab {
    /// The tab's colour.
    pub open spec fn spec_color(self) -> TabColor {
        match self {
            CurrentTab::Init => TabColor::Orange,
            CurrentTab::Select => TabColor::Blue,
            CurrentTab::Where => TabColor::Purple,
            CurrentTab::OrderBy => TabColor::Emerald,
        }
    }

    /// The tab's colour.
    #[verifier::when_used_as_spec(spec_color)]
    pub fn color(self) -> (color: TabColor)
        ensures
            color == self.spec_color(),
    {
        match self {
            CurrentTab::Init => TabColor::Orange,
            CurrentTab::Select => TabColor::Blue,
            CurrentTab::Where => TabColor::Purple,
            CurrentTab::OrderBy => TabColor::Emerald,
        }
    }

    /// The tab's title.
    pub open spec fn spec_title(self) -> Seq<char> {
        match self {
            CurrentTab::Init => "INIT"@,
            CurrentTab::Select => "SELECT"@,
            CurrentTab::Where => "WHERE"@,
            CurrentTab::OrderBy => "ORDER BY"@,
        }
    }

    /// The tab's title.
    pub fn title(self) -> (title: String)
        ensures
            title@ == self.spec_title(),
    {
        match self {
            CurrentTab::Init => "INIT".to_owned(),
            CurrentTab::Select => "SELECT".to_owned(),
            CurrentTab::Where => "WHERE".to_owned(),
            CurrentTab::OrderBy => "ORDER BY".to_owned(),
        }
    }
}

impl AppView {
    /// The rows of the current tab: none on the Init tab; on the others one
    /// per column from the first visible one to the last, the row of the
    /// column under the cursor highlighted.
    pub open spec fn rows(self) -> Seq<RowView> {
        if self.tab == CurrentTab::Init {
            Seq::empty()
        } else {
            let first = first_visible(self.cursor);
            Seq::new(
                (self.columns.len() - first) as nat,
                |k: int|
                    RowView {
                        text: row_text(self.tab, self.columns[first + k], self.specs[first + k]),
                        highlighted: first + k == self.cursor,
                    },
            )
        }
    }
}

impl AppView {
    /// The popup, if an edit session is open.
    pub open spec fn popup(self) -> Option<PopupView> {
        if self.editing {
            Some(PopupView { column: self.columns[self.cursor], constraint: self.buffer })
        } else {
            None
        }
    }
}

impl App {
    /// The popup, if an edit session is open.
    pub fn popup(&self) -> (popup: Option<Popup>)
        requires
            self.wf(),
        ensures
            popup.is_some() == self@.editing,
            popup.is_some() ==> popup.unwrap()@ == self@.popup().unwrap(),
    {
        if self.currently_editing.is_some() {
            Some(
                Popup {
                    column: self.base_columns[self.current_column].clone(),
                    constraint: self.constraint_input.clone(),
                },
            )
        } else {
            None
        }
    }

    /// The text of the row of column `i` on the current tab.
    pub fn row_label(&self, i: usize) -> (text: String)
        requires
            self.wf(),
            i < self.base_columns@.len(),
        ensures
            text@ == row_text(self@.tab, self@.columns[i as int], self@.specs[i as int]),
    {
        let name = &self.base_columns[i];
        let mut text = String::new();
        match self.current_tab {
            CurrentTab::Init => {
                text.push_str(name.as_str());
            },
            CurrentTab::Select => {
                match self.specified_columns.selected_columns[i] {
                    SelectedFlag::Selected => {
                        text.push_str("✓ ");
                    },
                    SelectedFlag::NotSelected => {},
                }
                text.push_str(name.as_str());
            },
            CurrentTab::OrderBy => {
                match self.specified_columns.ordered_columns[i] {
                    OrderdFlag::Asc => {
                        text.push_str("↑ ");
                    },
                    OrderdFlag::Desc => {
                        text.push_str("↓ ");
                    },
                    OrderdFlag::Off => {},
                }
                text.push_str(name.as_str());
            },
            CurrentTab::Where => {
                text.push_str(name.as_str());
                match &self.specified_columns.where_constraints[i] {
                    Some(constraint) => {
                        text.push_str(" ");
                        text.push_str(constraint.as_str());
                    },
                    None => {},
                }
            },
        }
        proof {
            assert(text@ =~= row_text(self@.tab, self@.columns[i as int], self@.specs[i as int]));
        }
        text
    }

    /// The rows of the current tab.
    pub fn visible_rows(&self) -> (rows: Vec<Row>)
        requires
            self.wf(),
        ensures
            row_views(rows@) == self@.rows(),
    {
        let mut rows: Vec<Row> = Vec::new();
        if self.current_tab == CurrentTab::Init {
            proof {
                assert(row_views(rows@) =~= self@.rows());
            }
            return rows;
        }
        let starting_point: usize = if self.current_column >= ROWS_ABOVE_CURSOR {
            self.current_column - ROWS_ABOVE_CURSOR
        } else {
            0
        };
        let mut i: usize = starting_point;
        while i < self.base_columns.len()
            invariant
                self.wf(),
                self.current_tab != CurrentTab::Init,
                starting_point == first_visible(self@.cursor),
                starting_point <= i <= self.base_columns@.len(),
                rows@.len() == i - starting_point,
                row_views(rows@) == self@.rows().take(i - starting_point),
            decreases self.base_columns@.len() - i,
        {
            let ghost before = rows@;
            let row = Row { text: self.row_label(i), highlighted: i == self.current_column };
            rows.push(row);
            proof {
                let all = self@.rows();
                let n = i - starting_point;
                assert forall|k: int| 0 <= k < n + 1 implies row_views(rows@)[k] == all.take(
                    n + 1,
                )[k] by {
                    if k < n {
                        assert(rows@[k] == before[k]);
                        assert(row_views(before)[k] == all.take(n)[k]);
                    }
                }
                assert(row_views(rows@) =~= all.take(n + 1));
            }
            i = i + 1;
        }
        proof {
            assert(row_views(rows@) =~= self@.rows());
        }
        rows
    }
}

} // verus!
