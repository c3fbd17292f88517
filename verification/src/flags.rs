//! The small enumerations of a session: run state, tabs and per-column flags.

use vstd::prelude::*;

verus! {

/// Top-level mode of the session. `Quitting` is terminal.
#[derive(Clone, Copy, PartialEq, Eq, Structural, Debug)]
pub enum AppState {
    Running,
    Editing,
    Quitting,
}

/// The tabs, in the order in which navigation walks them.
#[derive(Clone, Copy, PartialEq, Eq, Structural, Debug)]
pub enum CurrentTab {
    Init,
    Select,
    Where,
    OrderBy,
}

/// Whether a column is part of the `SELECT` list.
#[derive(Clone, Copy, PartialEq, Eq, Structural, Debug)]
pub enum SelectedFlag {
    Selected,
    NotSelected,
}

/// Whether, and in which direction, a column is part of `ORDER BY`.
#[derive(Clone, Copy, PartialEq, Eq, Structural, Debug)]
pub enum OrderdFlag {
    Asc,
    Desc,
    Off,
}

/// What an edit session is composing.
#[derive(Clone, Copy, PartialEq, Eq, Structural, Debug)]
pub enum CurrentlyEditing {
    Constraint,
}

impl Default for AppState {
    fn default() -> (r: AppState)
        ensures
            r == AppState::Running,
    {
        AppState::Running
    }
}

impl Default for CurrentTab {
    fn default() -> (r: CurrentTab)
        ensures
            r == CurrentTab::Init,
    {
        CurrentTab::Init
    }
}

impl Default for SelectedFlag {
    fn default() -> (r: SelectedFlag)
        ensures
            r == SelectedFlag::NotSelected,
    {
        SelectedFlag::NotSelected
    }
}

impl Default for OrderdFlag {
    fn default() -> (r: OrderdFlag)
        ensures
            r == OrderdFlag::Off,
    {
        OrderdFlag::Off
    }
}

impl CurrentTab {
    /// Position of the tab in the tab bar, from 0.
    pub open spec fn position(self) -> int {
        match self {
            CurrentTab::Init => 0,
            CurrentTab::Select => 1,
            CurrentTab::Where => 2,
            CurrentTab::OrderBy => 3,
        }
    }

    /// The tab at a position, if there is one.
    pub open spec fn at(i: int) -> Option<CurrentTab> {
        if i == 0 {
            Some(CurrentTab::Init)
        } else if i == 1 {
            Some(CurrentTab::Select)
        } else if i == 2 {
            Some(CurrentTab::Where)
        } else if i == 3 {
            Some(CurrentTab::OrderBy)
        } else {
            None
        }
    }

    /// The tab one step to the right; the last tab stays.
    pub open spec fn spec_next(self) -> CurrentTab {
        match Self::at(self.position() + 1) {
            Some(t) => t,
            None => self,
        }
    }

    /// The tab one step to the left; the first tab stays.
    pub open spec fn spec_previous(self) -> CurrentTab {
        match Self::at(self.position() - 1) {
            Some(t) => t,
            None => self,
        }
    }

    /// Position of the tab in the tab bar, from 0.
    pub fn index(self) -> (i: usize)
        ensures
            i == self.position(),
    {
        match self {
            CurrentTab::Init => 0,
            CurrentTab::Select => 1,
            CurrentTab::Where => 2,
            CurrentTab::OrderBy => 3,
        }
    }

    /// The tab at a position, if there is one.
    pub fn from_repr(i: usize) -> (r: Option<CurrentTab>)
        ensures
            r == Self::at(i as int),
    {
        if i == 0 {
            Some(CurrentTab::Init)
        } else if i == 1 {
            Some(CurrentTab::Select)
        } else if i == 2 {
            Some(CurrentTab::Where)
        } else if i == 3 {
            Some(CurrentTab::OrderBy)
        } else {
            None
        }
    }

    /// Get the previous tab, if there is no previous tab return the current tab.
    #[verifier::when_used_as_spec(spec_previous)]
    pub fn previous(self) -> (r: CurrentTab)
        ensures
            r == self.spec_previous(),
            r.position() == if self.position() > 0 { self.position() - 1 } else { 0 },
    {
        let i: usize = self.index();
        if i == 0 {
            self
        } else {
            match Self::from_repr(i - 1) {
                Some(t) => t,
                None => self,
            }
        }
    }

    /// Get the next tab, if there is no next tab return the current tab.
    #[verifier::when_used_as_spec(spec_next)]
    pub fn next(self) -> (r: CurrentTab)
        ensures
            r == self.spec_next(),
            r.position() == if self.position() < 3 { self.position() + 1 } else { 3 },
    {
        let i: usize = self.index();
        match Self::from_repr(i + 1) {
            Some(t) => t,
            None => self,
        }
    }
}

impl SelectedFlag {
    /// The other flag.
    pub open spec fn spec_toggled(self) -> SelectedFlag {
        match self {
            SelectedFlag::Selected => SelectedFlag::NotSelected,
            SelectedFlag::NotSelected => SelectedFlag::Selected,
        }
    }

    /// The other flag.
    #[verifier::when_used_as_spec(spec_toggled)]
    pub fn toggled(self) -> (r: SelectedFlag)
        ensures
            r == self.spec_toggled(),
            r != self,
    {
        match self {
            SelectedFlag::Selected => SelectedFlag::NotSelected,
            SelectedFlag::NotSelected => SelectedFlag::Selected,
        }
    }
}

impl OrderdFlag {
    /// The next flag of the cycle ascending, descending, off.
    pub open spec fn spec_cycled(self) -> OrderdFlag {
        match self {
            OrderdFlag::Asc => OrderdFlag::Desc,
            OrderdFlag::Desc => OrderdFlag::Off,
            OrderdFlag::Off => OrderdFlag::Asc,
        }
    }

    /// The next flag of the cycle ascending, descending, off.
    #[verifier::when_used_as_spec(spec_cycled)]
    pub fn cycled(self) -> (r: OrderdFlag)
        ensures
            r == self.spec_cycled(),
    {
        match self {
            OrderdFlag::Asc => OrderdFlag::Desc,
            OrderdFlag::Desc => OrderdFlag::Off,
            OrderdFlag::Off => OrderdFlag::Asc,
        }
    }
}

} // verus!
