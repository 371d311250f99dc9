use termwidgets::error::ConfigError;
use termwidgets::table::Table;

fn setup_test_table() -> Table {
    let headers = vec!["ID".to_string(), "Name".to_string(), "Occupation".to_string()];
    let data = vec![
        vec!["1".to_string(), "Alice".to_string(), "Engineer".to_string()],
        vec!["2".to_string(), "Bob".to_string(), "Artist".to_string()],
        vec!["3".to_string(), "Charlie".to_string(), "Teacher".to_string()],
        vec!["4".to_string(), "Charlie".to_string(), "Teacher".to_string()],
    ];

    Table::new(headers, data, 0, 2, 3).unwrap()
}

#[test]
fn test_initialization() {
    let table = setup_test_table();
    assert_eq!(table.selected_row(), 0, "Initial selected row should be 0");
    assert_eq!(table.scroll_offset(), 0, "Initial scroll offset should be 0");
    assert!(!table.data().is_empty(), "Table data should not be empty");
}

#[test]
fn test_move_cursor_down() {
    let mut table = setup_test_table();
    table.move_cursor_down();
    table.move_cursor_down();
    table.move_cursor_down();
    assert_eq!(table.selected_row(), 3, "Cursor should be at row 3");

    table.move_cursor_down();
    assert_eq!(table.selected_row(), 3, "Cursor should render row 4 on table height");
}

#[test]
fn test_move_cursor_up() {
    let mut table = setup_test_table();
    table.move_cursor_down();
    table.move_cursor_down();
    table.move_cursor_up();
    assert_eq!(table.selected_row(), 1, "Cursor should move up to the second row");

    table.move_cursor_up();
    table.move_cursor_up();
    assert_eq!(table.selected_row(), 0, "Cursor should not move above the first row");
    assert_eq!(table.scroll_offset(), 0, "Scroll offset should remain at 0 when at the top of the table");
}

#[test]
fn test_column_width_calculation() {
    let table = setup_test_table();
    let expected_widths = vec![6, 11, 14];
    let calculated_widths = Table::calculate_column_widths(table.headers(), table.data(), 2);

    assert_eq!(calculated_widths, expected_widths, "Column widths should be calculated correctly based on content and padding");
}

#[test]
fn table_down_n_times_stops_at_last_row() {
    let mut table = setup_test_table();
    for _ in 0..4 {
        table.move_cursor_down();
    }
    assert_eq!(table.selected_row(), 3);
    assert_eq!(table.scroll_offset(), 1);
    table.move_cursor_down();
    assert_eq!(table.selected_row(), 3);
    assert_eq!(table.scroll_offset(), 1);
}

#[test]
fn table_counts_characters_not_bytes() {
    let headers = vec!["\u{e9}t\u{e9}".to_string()];
    let data = vec![vec!["ab".to_string()]];
    assert_eq!(Table::calculate_column_widths(&headers, &data, 1), vec![5]);
    let t = Table::new(headers, data, 0, 1, 1).unwrap();
    assert_eq!(t.column_widths(), vec![5]);
    assert_eq!(t.padding(), 1);
    assert_eq!(t.visible_lines(), 1);
}

#[test]
fn table_initial_window_shows_selected_row() {
    let headers = vec!["A".to_string()];
    let data: Vec<Vec<String>> = (0..6).map(|i| vec![i.to_string()]).collect();
    let t = Table::new(headers, data, 4, 0, 2).unwrap();
    assert_eq!(t.selected_row(), 4);
    assert_eq!(t.scroll_offset(), 3);
}

#[test]
fn table_rejects_bad_configuration() {
    let h = || vec!["A".to_string(), "B".to_string()];
    let row = |a: &str, b: &str| vec![a.to_string(), b.to_string()];
    assert!(matches!(Table::new(h(), vec![row("1", "2")], 0, 1, 0), Err(ConfigError::ZeroWindow)));
    assert!(matches!(
        Table::new(h(), vec![row("1", "2"), vec!["3".to_string()]], 0, 1, 2),
        Err(ConfigError::RaggedRow)
    ));
    assert!(matches!(
        Table::new(h(), vec![row("1", "2")], 1, 1, 2),
        Err(ConfigError::SelectedOutOfRange)
    ));
    assert!(Table::new(h(), vec![], 0, 1, 2).is_ok());
}

#[test]
fn empty_table_moves_do_nothing() {
    let mut t = Table::new(vec!["A".to_string()], vec![], 0, 1, 2).unwrap();
    t.move_cursor_down();
    t.move_cursor_up();
    assert_eq!(t.selected_row(), 0);
    assert_eq!(t.scroll_offset(), 0);
}
