//! What holds of every session, stated over the model and proved.

use vstd::prelude::*;
use crate::flags::{AppState, CurrentTab, OrderdFlag};
use crate::keys::{spec_route, Action, Key};
use crate::model::AppView;
use crate::sql::{
    clause, lemma_present_all, lemma_present_contains, lemma_present_none, order_clause,
    order_fragments, present, query_text, select_fragments, select_list, where_clause,
    where_fragments,
};

verus! {

/// Every transition keeps a well-formed session well formed, on the same
/// schema.
pub proof fn law_transitions_keep_wf(v: AppView, c: char, column: int)
    requires
        v.wf(),
        0 <= column < v.columns.len(),
    ensures
        v.next_tab().wf(),
        v.previous_tab().wf(),
        v.quit().wf(),
        v.next_column().wf(),
        v.previous_column().wf(),
        v.toggle_select().wf(),
        v.select_all().wf(),
        v.cycle_order().wf(),
        v.begin_edit(column).wf(),
        v.push_char(c).wf(),
        v.pop_char().wf(),
        v.commit().wf(),
        v.cancel().wf(),
{
}

/// Steps down, no more of them than there are columns, move the cursor by
/// that many columns, past the last column to the first, and change nothing
/// else.
pub proof fn lemma_next_column_walk(v: AppView, steps: nat)
    requires
        v.wf(),
        steps <= v.columns.len(),
    ensures
        v.next_column_times(steps) == (AppView {
            cursor: if v.cursor + steps < v.columns.len() {
                v.cursor + steps
            } else {
                v.cursor + steps - v.columns.len()
            },
            ..v
        }),
    decreases steps,
{
    if steps > 0 {
        lemma_next_column_walk(v, (steps - 1) as nat);
    }
}

/// As many steps down as there are columns lead back to the column they
/// started from: from the first column to the first column.
pub proof fn law_next_column_wraps_around(v: AppView)
    requires
        v.wf(),
    ensures
        v.next_column_times(v.columns.len()) == v,
        v.cursor == 0 ==> v.next_column_times(v.columns.len()).cursor == 0,
{
    lemma_next_column_walk(v, v.columns.len());
}

/// One step up from the first column leads to the last column.
pub proof fn law_previous_column_from_first(v: AppView)
    requires
        v.wf(),
        v.cursor == 0,
    ensures
        v.previous_column().cursor == v.columns.len() - 1,
{
}

/// A step up undoes a step down, and a step down undoes a step up.
pub proof fn law_column_steps_are_inverse(v: AppView)
    requires
        v.wf(),
    ensures
        v.next_column().previous_column() == v,
        v.previous_column().next_column() == v,
{
}

/// A change of tab puts the cursor on the first column, wherever it was.
pub proof fn law_tab_change_resets_cursor(v: AppView)
    ensures
        v.next_tab().cursor == 0,
        v.previous_tab().cursor == 0,
{
}

/// Tabs do not wrap around: the last tab is its own successor, the first
/// its own predecessor, and any other step moves by one position.
pub proof fn law_tabs_are_clamped(tab: CurrentTab)
    ensures
        0 <= tab.position() <= 3,
        tab.spec_next().position() == if tab.position() < 3 {
            tab.position() + 1
        } else {
            3
        },
        tab.spec_previous().position() == if tab.position() > 0 {
            tab.position() - 1
        } else {
            0
        },
{
}

/// A session that nothing was done to gives `SELECT * FROM` and the table,
/// with no further clause.
pub proof fn law_blank_session_selects_star(columns: Seq<Seq<char>>, table: Seq<char>)
    requires
        columns.len() > 0,
    ensures
        AppView::initial(columns).wf(),
        query_text(table, columns, AppView::initial(columns).specs) == "SELECT "@ + "*"@
            + " FROM "@ + table + ";"@,
{
    let specs = AppView::initial(columns).specs;
    lemma_present_none(select_fragments(columns, specs));
    lemma_present_none(where_fragments(columns, specs));
    lemma_present_none(order_fragments(columns, specs));
    assert(query_text(table, columns, specs) =~= "SELECT "@ + "*"@ + " FROM "@ + table + ";"@);
}

/// On the Select tab, after selecting all columns the statement selects
/// `*`, whatever was selected before; the rest of the statement is as it
/// was.
pub proof fn law_select_all_gives_star(v: AppView, table: Seq<char>)
    requires
        v.wf(),
        v.tab == CurrentTab::Select,
    ensures
        select_list(v.select_all().columns, v.select_all().specs) == "*"@,
        query_text(table, v.select_all().columns, v.select_all().specs) == "SELECT "@ + "*"@
            + " FROM "@ + table + where_clause(v.columns, v.specs) + order_clause(
            v.columns,
            v.specs,
        ) + ";"@,
{
    let after = v.select_all();
    lemma_present_all(select_fragments(after.columns, after.specs));
    assert(where_fragments(after.columns, after.specs) =~= where_fragments(v.columns, v.specs));
    assert(order_fragments(after.columns, after.specs) =~= order_fragments(v.columns, v.specs));
}

/// On the Select tab, toggling twice leaves the session as it was.
pub proof fn law_toggle_select_twice(v: AppView)
    requires
        v.wf(),
    ensures
        v.toggle_select().toggle_select() == v,
        v.tab == CurrentTab::Select ==> v.toggle_select().specs[v.cursor].selected
            != v.specs[v.cursor].selected,
{
    assert(v.toggle_select().toggle_select() =~= v);
}

/// Cycling the order three times leaves the session as it was; on the
/// OrderBy tab a column that is not ordered becomes ascending, then
/// descending, then not ordered again.
pub proof fn law_cycle_order_thrice(v: AppView)
    requires
        v.wf(),
    ensures
        v.cycle_order().cycle_order().cycle_order() == v,
        v.tab == CurrentTab::OrderBy && v.specs[v.cursor].order == OrderdFlag::Off ==> {
            &&& v.cycle_order().specs[v.cursor].order == OrderdFlag::Asc
            &&& v.cycle_order().cycle_order().specs[v.cursor].order == OrderdFlag::Desc
            &&& v.cycle_order().cycle_order().cycle_order().specs[v.cursor].order
                == OrderdFlag::Off
        },
{
    assert(v.cycle_order().cycle_order().cycle_order() =~= v);
}

/// Committing an empty buffer gives the column under the cursor the empty
/// predicate, which is a predicate: the statement has a `WHERE` clause, and
/// the column's name followed by a space is one of its conditions.
pub proof fn law_commit_empty_is_present(v: AppView)
    requires
        v.wf(),
        v.state == AppState::Editing,
        v.buffer.len() == 0,
    ensures
        v.commit().specs[v.cursor].predicate == Some(Seq::<char>::empty()),
        present(where_fragments(v.commit().columns, v.commit().specs)).contains(
            v.columns[v.cursor] + " "@,
        ),
        where_clause(v.commit().columns, v.commit().specs).len() > 0,
{
    let after = v.commit();
    let frags = where_fragments(after.columns, after.specs);
    assert(v.buffer =~= Seq::<char>::empty());
    assert(frags[v.cursor] == Some(v.columns[v.cursor] + " "@ + Seq::<char>::empty()));
    assert(v.columns[v.cursor] + " "@ + Seq::<char>::empty() =~= v.columns[v.cursor] + " "@);
    lemma_present_contains(frags, v.cursor);
    let items = present(frags);
    assert(items.len() > 0);
    reveal_strlit(" WHERE ");
    assert(" WHERE "@.len() == 7);
    assert(clause(" WHERE "@, items, " AND "@).len() >= 7);
}

/// Committing stores the buffer, whatever it holds, as the predicate of the
/// column under the cursor, and leaves the other columns as they were.
pub proof fn law_commit_stores_buffer(v: AppView, other: int)
    requires
        v.wf(),
        v.state == AppState::Editing,
        0 <= other < v.columns.len(),
        other != v.cursor,
    ensures
        v.commit().specs[v.cursor].predicate == Some(v.buffer),
        v.commit().specs[other] == v.specs[other],
        v.commit().state == AppState::Running,
        v.commit().buffer.len() == 0,
{
}

/// Cancelling an edit leaves every predicate as it was.
pub proof fn law_cancel_keeps_predicates(v: AppView)
    ensures
        v.cancel().specs == v.specs,
        v.state == AppState::Editing ==> v.cancel().state == AppState::Running,
{
}

/// An edit that is begun and cancelled, whatever was typed in between,
/// leaves every column's specification as it was.
pub proof fn law_begin_then_cancel(v: AppView, column: int, typed: char)
    requires
        v.wf(),
        0 <= column < v.columns.len(),
    ensures
        v.begin_edit(column).push_char(typed).cancel().specs == v.specs,
{
}

/// An action on a tab that it is not defined for does nothing.
pub proof fn law_actions_off_their_tab_do_nothing(v: AppView, column: int, c: char)
    ensures
        v.tab != CurrentTab::Select ==> v.toggle_select() == v && v.select_all() == v,
        v.tab != CurrentTab::OrderBy ==> v.cycle_order() == v,
        v.tab != CurrentTab::Where ==> v.begin_edit(column) == v,
        v.state != AppState::Editing ==> v.push_char(c) == v && v.pop_char() == v && v.commit()
            == v && v.cancel() == v,
{
}

/// Once the session is quitting, no key changes anything.
pub proof fn law_quitting_is_terminal(v: AppView, key: Key)
    requires
        v.state == AppState::Quitting,
    ensures
        spec_route(v.state, v.tab, key) == Action::Nothing,
        v.handle_key(key) == v,
{
}

/// A key keeps a well-formed session well formed, on the same schema. While
/// an edit session is open, no key moves the tab or the cursor, and the
/// session can only go on or return to running.
pub proof fn law_keys_keep_wf(v: AppView, key: Key)
    requires
        v.wf(),
    ensures
        v.handle_key(key).wf(),
        v.handle_key(key).columns == v.columns,
        v.state == AppState::Editing ==> {
            &&& v.handle_key(key).tab == v.tab
            &&& v.handle_key(key).cursor == v.cursor
            &&& v.handle_key(key).state != AppState::Quitting
        },
{
}

} // verus!
