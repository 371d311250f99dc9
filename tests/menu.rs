use termwidgets::menu::Menu;

fn drinks() -> Menu {
    let items = vec!["Tea".to_string(), "Coffee".to_string(), "Water".to_string()];
    Menu::new("Title".to_string(), "Subtitle".to_string(), items, 2).unwrap()
}

#[test]
fn test_menu_list() {
    let mut menu = Menu::new("Title".to_string(), "Subtitle".to_string(), vec![], 4).unwrap();
    menu.up();
    menu.down();
    menu.toggle_selection();

    assert_eq!(menu.selected(), None);
}

#[test]
fn menu_moves_circularly() {
    let mut menu = drinks();
    assert_eq!(menu.selected(), Some(0));
    menu.up();
    assert_eq!(menu.selected(), Some(2));
    assert_eq!(menu.scroll_offset(), 1);
    menu.down();
    assert_eq!(menu.selected(), Some(0));
    assert_eq!(menu.scroll_offset(), 0);
}

#[test]
fn menu_toggles_entry_under_cursor() {
    let mut menu = drinks();
    menu.down();
    menu.toggle_selection();
    let ticked: Vec<bool> = menu.items().iter().map(|m| m.selected).collect();
    assert_eq!(ticked, vec![false, true, false]);
    menu.toggle_selection();
    assert!(menu.items().iter().all(|m| !m.selected));
    assert_eq!(menu.items()[1].name, "Coffee");
    assert_eq!(menu.title(), "Title");
    assert_eq!(menu.subtitle(), "Subtitle");
}
