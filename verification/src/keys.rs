//! From keys to actions: which action a key stands for in each run state and
//! on each tab, and the step that a session takes on a key.

use vstd::prelude::*;
use crate::app::App;
use crate::flags::{AppState, CurrentTab};
use crate::model::AppView;

verus! {

/// A key as the front end reports it. `Char` carries a printable character;
/// `Other` is any key that has no name here.
#[derive(Clone, Copy, PartialEq, Eq, Structural, Debug)]
pub enum Key {
    Char(char),
    Enter,
    Backspace,
    Esc,
    Left,
    Right,
    Up,
    Down,
    Other,
}

/// What a key asks of the session.
#[derive(Clone, Copy, PartialEq, Eq, Structural, Debug)]
pub enum Action {
    NextTab,
    PreviousTab,
    NextColumn,
    PreviousColumn,
    Quit,
    ToggleSelect,
    SelectAll,
    CycleOrder,
    BeginEdit,
    PushChar(char),
    PopChar,
    Commit,
    Cancel,
    Nothing,
}

/// The action of a key while running.
pub open spec fn running_action(tab: CurrentTab, key: Key) -> Action {
    match key {
        Key::Right => Action::NextTab,
        Key::Left => Action::PreviousTab,
        Key::Down => Action::NextColumn,
        Key::Up => Action::PreviousColumn,
        Key::Esc => Action::Quit,
        Key::Enter => match tab {
            CurrentTab::Select => Action::ToggleSelect,
            CurrentTab::OrderBy => Action::CycleOrder,
            _ => Action::Nothing,
        },
        Key::Char(c) => if c == 'l' {
            Action::NextTab
        } else if c == 'h' {
            Action::PreviousTab
        } else if c == 'j' {
            Action::NextColumn
        } else if c == 'k' {
            Action::PreviousColumn
        } else if c == 'q' {
            Action::Quit
        } else if c == 'a' && tab == CurrentTab::Select {
            Action::SelectAll
        } else if c == 'e' && tab == CurrentTab::Where {
            Action::BeginEdit
        } else {
            Action::Nothing
        },
        _ => Action::Nothing,
    }
}

/// The action of a key while editing.
pub open spec fn editing_action(key: Key) -> Action {
    match key {
        Key::Enter => Action::Commit,
        Key::Backspace => Action::PopChar,
        Key::Esc => Action::Cancel,
        Key::Char(c) => Action::PushChar(c),
        _ => Action::Nothing,
    }
}

/// The action of a key. Once the session is quitting, no key does anything.
pub open spec fn spec_route(state: AppState, tab: CurrentTab, key: Key) -> Action {
    match state {
        AppState::Running => running_action(tab, key),
        AppState::Editing => editing_action(key),
        AppState::Quitting => Action::Nothing,
    }
}

/// The action of a key in a run state and on a tab.
#[verifier::when_used_as_spec(spec_route)]
pub fn route(state: AppState, tab: CurrentTab, key: Key) -> (action: Action)
    ensures
        action == spec_route(state, tab, key),
{
    match state {
        AppState::Running => match key {
            Key::Right => Action::NextTab,
            Key::Left => Action::PreviousTab,
            Key::Down => Action::NextColumn,
            Key::Up => Action::PreviousColumn,
            Key::Esc => Action::Quit,
            Key::Enter => match tab {
                CurrentTab::Select => Action::ToggleSelect,
                CurrentTab::OrderBy => Action::CycleOrder,
                _ => Action::Nothing,
            },
            Key::Char(c) => {
                if c == 'l' {
                    Action::NextTab
                } else if c == 'h' {
                    Action::PreviousTab
                } else if c == 'j' {
                    Action::NextColumn
                } else if c == 'k' {
                    Action::PreviousColumn
                } else if c == 'q' {
                    Action::Quit
                } else if c == 'a' && tab == CurrentTab::Select {
                    Action::SelectAll
                } else if c == 'e' && tab == CurrentTab::Where {
                    Action::BeginEdit
                } else {
                    Action::Nothing
                }
            },
            _ => Action::Nothing,
        },
        AppState::Editing => match key {
            Key::Enter => Action::Commit,
            Key::Backspace => Action::PopChar,
            Key::Esc => Action::Cancel,
            Key::Char(c) => Action::PushChar(c),
            _ => Action::Nothing,
        },
        AppState::Quitting => Action::Nothing,
    }
}

impl AppView {
    /// The session after an action.
    pub open spec fn apply(self, action: Action) -> AppView {
        match action {
            Action::NextTab => self.next_tab(),
            Action::PreviousTab => self.previous_tab(),
            Action::NextColumn => self.next_column(),
            Action::PreviousColumn => self.previous_column(),
            Action::Quit => self.quit(),
            Action::ToggleSelect => self.toggle_select(),
            Action::SelectAll => self.select_all(),
            Action::CycleOrder => self.cycle_order(),
            Action::BeginEdit => self.begin_edit(self.cursor),
            Action::PushChar(c) => self.push_char(c),
            Action::PopChar => self.pop_char(),
            Action::Commit => self.commit(),
            Action::Cancel => self.cancel(),
            Action::Nothing => self,
        }
    }

    /// The session after a key.
    pub open spec fn handle_key(self, key: Key) -> AppView {
        self.apply(spec_route(self.state, self.tab, key))
    }
}

impl App {
    /// Performs an action.
    pub fn apply(&mut self, action: Action)
        requires
            old(self).wf(),
        ensures
            final(self).wf(),
            final(self)@ == old(self)@.apply(action),
    {
        match action {
            Action::NextTab => self.next_tab(),
            Action::PreviousTab => self.previous_tab(),
            Action::NextColumn => self.next_column(),
            Action::PreviousColumn => self.previous_column(),
            Action::Quit => self.quit(),
            Action::ToggleSelect => self.toggle_select(),
            Action::SelectAll => self.select_all(),
            Action::CycleOrder => self.cycle_order(),
            Action::BeginEdit => {
                let column = self.current_column;
                self.begin_edit(column)
            },
            Action::PushChar(c) => self.push_char(c),
            Action::PopChar => self.pop_char(),
            Action::Commit => self.commit(),
            Action::Cancel => self.cancel(),
            Action::Nothing => {},
        }
    }

    /// Takes one key: finds its action in the current run state and on the
    /// current tab, and performs it.
    pub fn handle_key(&mut self, key: Key)
        requires
            old(self).wf(),
        ensures
            final(self).wf(),
            final(self)@ == old(self)@.handle_key(key),
    {
        let action = route(self.state, self.current_tab, key);
        self.apply(action);
    }
}

} // verus!
