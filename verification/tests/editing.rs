use sql_generator::app::{App, Table};
use sql_generator::flags::{AppState, CurrentTab, CurrentlyEditing};

fn users_on_where() -> App {
    let columns = vec!["id".to_string(), "name".to_string(), "age".to_string()];
    let mut app = App::new(Table::new(columns).unwrap());
    app.next_tab();
    app.next_tab();
    assert_eq!(app.current_tab, CurrentTab::Where);
    app
}

fn type_text(app: &mut App, text: &str) {
    for c in text.chars() {
        app.push_char(c);
    }
}

#[test]
fn begin_edit_opens_an_empty_buffer() {
    let mut app = users_on_where();
    app.begin_edit(1);
    assert_eq!(app.state, AppState::Editing);
    assert_eq!(app.currently_editing, Some(CurrentlyEditing::Constraint));
    assert_eq!(app.current_column, 1);
    assert_eq!(app.constraint_input, "");
}

#[test]
fn begin_edit_is_seeded_with_the_predicate() {
    let mut app = users_on_where();
    app.specified_columns.where_constraints[2] = Some("> 18".to_string());
    app.begin_edit(2);
    assert_eq!(app.constraint_input, "> 18");
    app.push_char('0');
    app.commit();
    assert_eq!(app.specified_columns.where_constraints[2], Some("> 180".to_string()));
}

#[test]
fn begin_edit_off_the_where_tab_does_nothing() {
    let columns = vec!["id".to_string()];
    let mut app = App::new(Table::new(columns).unwrap());
    app.begin_edit(0);
    assert_eq!(app.state, AppState::Running);
    assert!(app.currently_editing.is_none());
    app.next_tab();
    app.begin_edit(0);
    assert_eq!(app.state, AppState::Running);
    app.next_tab();
    app.next_tab();
    app.begin_edit(0);
    assert_eq!(app.state, AppState::Running);
}

#[test]
fn begin_edit_while_quitting_does_nothing() {
    let mut app = users_on_where();
    app.quit();
    app.begin_edit(0);
    assert_eq!(app.state, AppState::Quitting);
    assert!(app.currently_editing.is_none());
}

#[test]
fn push_and_pop_edit_the_buffer() {
    let mut app = users_on_where();
    app.begin_edit(0);
    type_text(&mut app, "= 12");
    assert_eq!(app.constraint_input, "= 12");
    app.pop_char();
    assert_eq!(app.constraint_input, "= 1");
    app.pop_char();
    app.pop_char();
    app.pop_char();
    assert_eq!(app.constraint_input, "");
    app.pop_char();
    assert_eq!(app.constraint_input, "");
    assert_eq!(app.state, AppState::Editing);
}

#[test]
fn push_and_pop_do_nothing_while_running() {
    let mut app = users_on_where();
    app.push_char('x');
    assert_eq!(app.constraint_input, "");
    app.constraint_input = "kept".to_string();
    app.pop_char();
    assert_eq!(app.constraint_input, "kept");
}

#[test]
fn commit_stores_the_buffer() {
    let mut app = users_on_where();
    app.next_column();
    app.begin_edit(1);
    type_text(&mut app, "= 'Bob'");
    app.commit();
    assert_eq!(app.state, AppState::Running);
    assert!(app.currently_editing.is_none());
    assert_eq!(app.constraint_input, "");
    assert_eq!(
        app.specified_columns.where_constraints,
        vec![None, Some("= 'Bob'".to_string()), None]
    );
    assert_eq!(
        app.generate_query(&"users".to_string()),
        "SELECT * FROM users WHERE name = 'Bob';"
    );
}

#[test]
fn commit_replaces_the_predicate() {
    let mut app = users_on_where();
    app.specified_columns.where_constraints[0] = Some("= 1".to_string());
    app.begin_edit(0);
    app.pop_char();
    app.push_char('2');
    app.commit();
    assert_eq!(
        app.specified_columns.where_constraints,
        vec![Some("= 2".to_string()), None, None]
    );
}

#[test]
fn commit_of_an_empty_buffer_stores_an_empty_predicate() {
    let mut app = users_on_where();
    app.begin_edit(0);
    app.commit();
    assert_eq!(app.specified_columns.where_constraints, vec![Some(String::new()), None, None]);
    assert_eq!(app.generate_query(&"users".to_string()), "SELECT * FROM users WHERE id ;");
}

#[test]
fn commit_while_running_does_nothing() {
    let mut app = users_on_where();
    app.commit();
    assert_eq!(app.specified_columns.where_constraints, vec![None, None, None]);
    assert_eq!(app.state, AppState::Running);
}

#[test]
fn cancel_leaves_the_predicate_untouched() {
    let mut app = users_on_where();
    app.specified_columns.where_constraints[1] = Some("= 'Bob'".to_string());
    app.begin_edit(1);
    type_text(&mut app, " OR 1");
    assert_eq!(app.constraint_input, "= 'Bob' OR 1");
    app.cancel();
    assert_eq!(app.state, AppState::Running);
    assert!(app.currently_editing.is_none());
    assert_eq!(app.constraint_input, "");
    assert_eq!(
        app.specified_columns.where_constraints,
        vec![None, Some("= 'Bob'".to_string()), None]
    );
}

#[test]
fn cancel_without_a_predicate_leaves_none() {
    let mut app = users_on_where();
    app.begin_edit(0);
    type_text(&mut app, "x");
    app.cancel();
    assert_eq!(app.specified_columns.where_constraints, vec![None, None, None]);
    assert_eq!(app.generate_query(&"users".to_string()), "SELECT * FROM users;");
}

#[test]
fn cancel_while_running_does_nothing() {
    let mut app = users_on_where();
    app.constraint_input = "kept".to_string();
    app.cancel();
    assert_eq!(app.constraint_input, "kept");
    assert_eq!(app.state, AppState::Running);
}

#[test]
fn save_constraint_keeps_the_run_state_and_the_length() {
    let mut app = users_on_where();
    app.state = AppState::Editing;
    app.currently_editing = Some(CurrentlyEditing::Constraint);
    app.constraint_input = "< 3".to_string();
    app.current_column = 2;
    app.save_constraint();
    assert_eq!(app.state, AppState::Editing);
    assert!(app.currently_editing.is_none());
    assert_eq!(app.constraint_input, "");
    assert_eq!(app.specified_columns.where_constraints, vec![None, None, Some("< 3".to_string())]);
}

#[test]
fn clear_constraint_empties_the_buffer() {
    let mut app = users_on_where();
    app.constraint_input = "abc".to_string();
    app.clear_constraint();
    assert_eq!(app.constraint_input, "");
    assert_eq!(app.specified_columns.where_constraints, vec![None, None, None]);
}
