use termwidgets::list::{Item, ItemList};

fn groceries() -> Vec<Item> {
    vec![
        Item {
            title: "Pocky".into(),
            subtitle: "Expensive".into(),
        },
        Item {
            title: "Ginger".into(),
            subtitle: "Exquisite".into(),
        },
    ]
}

fn three(window: usize) -> ItemList {
    let mut items = groceries();
    items.push(Item {
        title: "Coke".into(),
        subtitle: "Fizzy".into(),
    });
    ItemList::new("Groceries".into(), items, window).unwrap()
}

#[test]
fn initializes_correctly() {
    let list = ItemList::new("Groceries".into(), groceries(), 4).unwrap();
    assert_eq!(list.selected(), Some(0));
}

#[test]
fn navigates_correctly() {
    let mut list = ItemList::new("Groceries".into(), groceries(), 4).unwrap();

    list.next();
    assert_eq!(list.selected(), Some(1));
    list.next();
    assert_eq!(list.selected(), Some(0));
    list.previous();
    assert_eq!(list.selected(), Some(1));
}

#[test]
fn filters_items() {
    let mut list = ItemList::new("Groceries".into(), groceries(), 4).unwrap();

    list.set_filter("Ginger");
    assert_eq!(list.filtered_count(), 1);
    assert_eq!(list.filtered_item(0).title, "Ginger");

    list.set_filter("Pocky");
    assert_eq!(list.filtered_count(), 1);
    assert_eq!(list.filtered_item(0).title, "Pocky");
}

#[test]
fn selects_item_correctly() {
    let mut list = ItemList::new("Groceries".into(), groceries(), 4).unwrap();

    list.next();
    let selected = list.get_selected_item();
    assert!(matches!(selected, Some(item) if item.title == "Ginger"));
}

#[test]
fn window_follows_selection() {
    let mut list = three(2);
    assert_eq!((list.selected(), list.scroll_offset()), (Some(0), 0));
    list.next();
    assert_eq!((list.selected(), list.scroll_offset()), (Some(1), 0));
    list.next();
    assert_eq!((list.selected(), list.scroll_offset()), (Some(2), 1));
    list.next();
    assert_eq!((list.selected(), list.scroll_offset()), (Some(0), 0));
    list.previous();
    assert_eq!((list.selected(), list.scroll_offset()), (Some(2), 1));
}

#[test]
fn next_n_times_returns_to_start() {
    let mut list = three(2);
    list.next();
    let start = list.selected();
    for _ in 0..3 {
        list.next();
    }
    assert_eq!(list.selected(), start);
}

#[test]
fn filter_ock_keeps_pocky() {
    let mut list = three(2);
    list.set_filter("ock");
    assert_eq!(list.filtered_count(), 1);
    assert_eq!(list.filtered_item(0).title, "Pocky");
    assert_eq!(list.selected(), Some(0));
}

#[test]
fn filter_ignores_case_and_empty_filter_restores_all() {
    let mut list = three(2);
    list.set_filter("GIN");
    assert_eq!(list.filtered_count(), 1);
    assert_eq!(list.filtered_item(0).title, "Ginger");
    list.set_filter("o");
    let titles: Vec<&str> = (0..list.filtered_count())
        .map(|k| list.filtered_item(k).title.as_str())
        .collect();
    assert_eq!(titles, vec!["Pocky", "Coke"]);
    list.set_filter("");
    assert_eq!(list.filtered_count(), 3);
    for k in 0..3 {
        assert_eq!(list.filtered_item(k).title, list.items()[k].title);
    }
    assert_eq!(list.filter(), "");
}

#[test]
fn filter_without_match_selects_nothing() {
    let mut list = three(2);
    list.set_filter("zzz");
    assert_eq!(list.filtered_count(), 0);
    assert_eq!(list.selected(), None);
    assert!(list.get_selected_item().is_none());
    list.next();
    list.previous();
    assert_eq!(list.selected(), None);
}

#[test]
fn selection_stays_in_window() {
    let mut list = three(2);
    for step in 0..12 {
        match step % 4 {
            0 | 1 => list.next(),
            2 => list.previous(),
            _ => list.set_filter(if step % 8 == 3 { "e" } else { "" }),
        }
        if let Some(s) = list.selected() {
            assert!(list.scroll_offset() <= s && s < list.scroll_offset() + 2);
        }
    }
}

#[test]
fn empty_list_has_no_selection() {
    let list = ItemList::new("Empty".into(), Vec::new(), 3).unwrap();
    assert_eq!(list.selected(), None);
    assert!(ItemList::new("Zero".into(), groceries(), 0).is_err());
}

#[test]
fn showing_filter_flag() {
    let mut list = three(2);
    assert!(!list.showing_filter());
    list.set_showing_filter(true);
    assert!(list.showing_filter());
    assert_eq!(list.title(), "Groceries");
}
