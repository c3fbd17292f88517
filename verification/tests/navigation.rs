use sql_generator::app::{App, SpecifiedColumns, Table};
use sql_generator::schema::{has_duplicate, SchemaError};
use sql_generator::flags::{AppState, CurrentTab, OrderdFlag, SelectedFlag};

fn app_with(n: usize) -> App {
    let columns: Vec<String> = (0..n).map(|i| format!("c{}", i)).collect();
    App::new(Table::new(columns).unwrap())
}

#[test]
fn empty_schema_is_rejected() {
    assert!(matches!(Table::new(Vec::new()), Err(SchemaError::NoColumns)));
}

#[test]
fn schema_with_a_name_twice_is_rejected() {
    let columns = vec!["id".to_string(), "name".to_string(), "id".to_string()];
    assert!(matches!(Table::new(columns), Err(SchemaError::DuplicateColumn)));
    let columns = vec!["a".to_string(), "a".to_string()];
    assert!(matches!(Table::new(columns), Err(SchemaError::DuplicateColumn)));
    let columns = vec!["id".to_string(), "Id".to_string(), "id ".to_string()];
    assert!(Table::new(columns).is_ok());
}

#[test]
fn has_duplicate_finds_equal_names() {
    assert!(!has_duplicate(&Vec::new()));
    assert!(!has_duplicate(&vec!["a".to_string()]));
    assert!(!has_duplicate(&vec!["a".to_string(), "b".to_string(), "c".to_string()]));
    assert!(has_duplicate(&vec!["a".to_string(), "b".to_string(), "b".to_string()]));
    assert!(has_duplicate(&vec!["".to_string(), "b".to_string(), "".to_string()]));
}

#[test]
fn schema_errors_in_words() {
    assert_eq!(SchemaError::NoColumns.message(), "the schema has no columns");
    assert_eq!(SchemaError::DuplicateColumn.message(), "the schema names a column twice");
}

#[test]
fn table_keeps_its_columns() {
    let table = Table::new(vec!["a".to_string(), "b".to_string()]).unwrap();
    assert_eq!(table.columns(), &vec!["a".to_string(), "b".to_string()]);
    assert_eq!(table.into_columns(), vec!["a".to_string(), "b".to_string()]);
}

#[test]
fn new_specification_is_blank() {
    let specified = SpecifiedColumns::new(3);
    assert_eq!(specified.selected_columns, vec![SelectedFlag::NotSelected; 3]);
    assert_eq!(specified.ordered_columns, vec![OrderdFlag::Off; 3]);
    assert_eq!(specified.where_constraints, vec![None, None, None]);
    let none = SpecifiedColumns::new(0);
    assert!(none.selected_columns.is_empty());
    assert!(none.ordered_columns.is_empty());
    assert!(none.where_constraints.is_empty());
}

#[test]
fn new_app_starts_on_first_tab_and_column() {
    let app = app_with(3);
    assert_eq!(app.state, AppState::Running);
    assert_eq!(app.current_tab, CurrentTab::Init);
    assert_eq!(app.current_column, 0);
    assert_eq!(app.base_columns, vec!["c0".to_string(), "c1".to_string(), "c2".to_string()]);
    assert_eq!(app.constraint_input, "");
    assert!(app.currently_editing.is_none());
    assert_eq!(app.specified_columns.selected_columns.len(), 3);
    assert!(app.is_valid());
}

#[test]
fn defaults_are_the_initial_values() {
    assert_eq!(AppState::default(), AppState::Running);
    assert_eq!(CurrentTab::default(), CurrentTab::Init);
    assert_eq!(SelectedFlag::default(), SelectedFlag::NotSelected);
    assert_eq!(OrderdFlag::default(), OrderdFlag::Off);
}

#[test]
fn is_valid_sees_a_broken_session() {
    let mut app = app_with(2);
    app.current_column = 2;
    assert!(!app.is_valid());
    let mut app = app_with(2);
    app.specified_columns.where_constraints.push(None);
    assert!(!app.is_valid());
}

#[test]
fn next_column_returns_to_start_after_as_many_steps_as_columns() {
    for n in 1..6 {
        let mut app = app_with(n);
        for step in 0..n {
            assert_eq!(app.current_column, step);
            app.next_column();
        }
        assert_eq!(app.current_column, 0);
    }
}

#[test]
fn previous_column_from_first_goes_to_last() {
    let mut app = app_with(5);
    app.previous_column();
    assert_eq!(app.current_column, 4);
    app.previous_column();
    assert_eq!(app.current_column, 3);
    let mut one = app_with(1);
    one.previous_column();
    assert_eq!(one.current_column, 0);
}

#[test]
fn tabs_are_walked_in_order_and_clamped() {
    let mut app = app_with(2);
    app.previous_tab();
    assert_eq!(app.current_tab, CurrentTab::Init);
    app.next_tab();
    assert_eq!(app.current_tab, CurrentTab::Select);
    app.next_tab();
    assert_eq!(app.current_tab, CurrentTab::Where);
    app.next_tab();
    assert_eq!(app.current_tab, CurrentTab::OrderBy);
    app.next_tab();
    assert_eq!(app.current_tab, CurrentTab::OrderBy);
    app.previous_tab();
    assert_eq!(app.current_tab, CurrentTab::Where);
}

#[test]
fn tab_positions() {
    assert_eq!(CurrentTab::Init.index(), 0);
    assert_eq!(CurrentTab::Select.index(), 1);
    assert_eq!(CurrentTab::Where.index(), 2);
    assert_eq!(CurrentTab::OrderBy.index(), 3);
    assert_eq!(CurrentTab::from_repr(0), Some(CurrentTab::Init));
    assert_eq!(CurrentTab::from_repr(3), Some(CurrentTab::OrderBy));
    assert_eq!(CurrentTab::from_repr(4), None);
    assert_eq!(CurrentTab::Init.previous(), CurrentTab::Init);
    assert_eq!(CurrentTab::Where.previous(), CurrentTab::Select);
    assert_eq!(CurrentTab::Where.next(), CurrentTab::OrderBy);
    assert_eq!(CurrentTab::OrderBy.next(), CurrentTab::OrderBy);
}

#[test]
fn tab_titles() {
    assert_eq!(CurrentTab::Init.title(), "INIT");
    assert_eq!(CurrentTab::Select.title(), "SELECT");
    assert_eq!(CurrentTab::Where.title(), "WHERE");
    assert_eq!(CurrentTab::OrderBy.title(), "ORDER BY");
}

#[test]
fn changing_tab_resets_the_cursor() {
    let mut app = app_with(4);
    app.next_column();
    app.next_column();
    assert_eq!(app.current_column, 2);
    app.next_tab();
    assert_eq!(app.current_column, 0);
    app.previous_column();
    assert_eq!(app.current_column, 3);
    app.previous_tab();
    assert_eq!(app.current_column, 0);
    app.next_column();
    app.previous_tab();
    assert_eq!(app.current_tab, CurrentTab::Init);
    assert_eq!(app.current_column, 0);
}

#[test]
fn quit_is_unconditional() {
    let mut app = app_with(1);
    app.quit();
    assert_eq!(app.state, AppState::Quitting);
    let mut app = app_with(1);
    app.state = AppState::Editing;
    app.quit();
    assert_eq!(app.state, AppState::Quitting);
}

#[test]
fn toggle_select_twice_restores_the_flag() {
    let mut app = app_with(3);
    app.next_tab();
    app.next_column();
    app.toggle_select();
    assert_eq!(
        app.specified_columns.selected_columns,
        vec![SelectedFlag::NotSelected, SelectedFlag::Selected, SelectedFlag::NotSelected]
    );
    app.toggle_select();
    assert_eq!(app.specified_columns.selected_columns, vec![SelectedFlag::NotSelected; 3]);
}

#[test]
fn toggle_select_off_its_tab_does_nothing() {
    let mut app = app_with(3);
    app.toggle_select();
    app.select_all();
    app.next_tab();
    app.next_tab();
    app.toggle_select();
    app.select_all();
    app.next_tab();
    app.toggle_select();
    app.select_all();
    assert_eq!(app.specified_columns.selected_columns, vec![SelectedFlag::NotSelected; 3]);
}

#[test]
fn flags_flip_and_cycle() {
    assert_eq!(SelectedFlag::Selected.toggled(), SelectedFlag::NotSelected);
    assert_eq!(SelectedFlag::NotSelected.toggled(), SelectedFlag::Selected);
    assert_eq!(OrderdFlag::Asc.cycled(), OrderdFlag::Desc);
    assert_eq!(OrderdFlag::Desc.cycled(), OrderdFlag::Off);
    assert_eq!(OrderdFlag::Off.cycled(), OrderdFlag::Asc);
}

#[test]
fn cycle_order_three_times_returns_to_off() {
    let mut app = app_with(2);
    app.next_tab();
    app.next_tab();
    app.next_tab();
    app.next_column();
    app.cycle_order();
    assert_eq!(app.specified_columns.ordered_columns, vec![OrderdFlag::Off, OrderdFlag::Asc]);
    app.cycle_order();
    assert_eq!(app.specified_columns.ordered_columns, vec![OrderdFlag::Off, OrderdFlag::Desc]);
    app.cycle_order();
    assert_eq!(app.specified_columns.ordered_columns, vec![OrderdFlag::Off, OrderdFlag::Off]);
}

#[test]
fn cycle_order_off_its_tab_does_nothing() {
    let mut app = app_with(2);
    app.cycle_order();
    app.next_tab();
    app.cycle_order();
    app.next_tab();
    app.cycle_order();
    assert_eq!(app.specified_columns.ordered_columns, vec![OrderdFlag::Off, OrderdFlag::Off]);
}
