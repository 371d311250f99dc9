use termwidgets::command::{closes_on_escape, closes_on_escape_or_q, InputEvent, Key, Modifiers};
use termwidgets::input::TextInput;
use termwidgets::list::{Item, ItemList, ListAction};
use termwidgets::menu::{Menu, MenuAction};
use termwidgets::table::Table;
use termwidgets::text_area::{TextArea, TextAreaAction};
use termwidgets::viewport::Viewport;

const PLAIN: Modifiers = Modifiers { control: false, other: false };
const CTRL: Modifiers = Modifiers { control: true, other: false };

fn key(k: Key) -> InputEvent {
    InputEvent::Key(k, PLAIN)
}

fn ch(c: char) -> InputEvent {
    key(Key::Char(c))
}

#[test]
fn text_area_session_submits_text() {
    let mut t = TextArea::new("L", None, 2).unwrap();
    for ev in [ch('h'), ch('i'), key(Key::Enter), ch('x'), key(Key::Backspace), key(Key::Up)] {
        assert!(matches!(t.handle_event(ev), TextAreaAction::Continue));
    }
    assert_eq!((t.cursor_y(), t.cursor_x()), (0, 0));
    match t.handle_event(key(Key::Tab)) {
        TextAreaAction::Submit(text) => assert_eq!(text, "hi\n"),
        _ => panic!("Tab should submit"),
    }
    assert!(matches!(t.handle_event(InputEvent::Key(Key::Char('c'), CTRL)), TextAreaAction::Cancel));
    assert!(matches!(t.handle_event(key(Key::Esc)), TextAreaAction::Cancel));
    assert_eq!(t.text(), "hi\n");
}

#[test]
fn input_session_edits_until_escape() {
    let mut t = TextInput::new(None, 0, "", "Label", None, "");
    assert!(!t.handle_event(ch('a')));
    assert!(!t.handle_event(ch('c')));
    assert!(!t.handle_event(key(Key::Left)));
    assert!(!t.handle_event(key(Key::Backspace)));
    assert_eq!(t.text(), "c");
    assert!(t.handle_event(InputEvent::Key(Key::Char('c'), CTRL)));
    assert!(t.handle_event(key(Key::Esc)));
    assert_eq!(t.text(), "c");
}

fn snacks() -> ItemList {
    let items = ["Pocky", "Ginger", "Coke"]
        .iter()
        .map(|t| Item { title: t.to_string(), subtitle: String::new() })
        .collect();
    ItemList::new("Snacks".into(), items, 2).unwrap()
}

#[test]
fn list_session_filters_and_chooses() {
    let mut l = snacks();
    assert!(matches!(l.handle_event(key(Key::Down)), ListAction::Continue));
    assert_eq!(l.selected(), Some(1));
    assert!(matches!(l.handle_event(ch('g')), ListAction::Continue));
    assert_eq!(l.filter(), "");
    assert!(matches!(l.handle_event(ch('/')), ListAction::Continue));
    assert!(l.showing_filter());
    l.handle_event(ch('o'));
    l.handle_event(ch('k'));
    assert_eq!(l.filter(), "ok");
    assert_eq!(l.filtered_count(), 1);
    l.handle_event(key(Key::Backspace));
    assert_eq!(l.filter(), "o");
    assert_eq!(l.filtered_count(), 2);
    l.handle_event(key(Key::Down));
    match l.handle_event(key(Key::Enter)) {
        ListAction::Chosen(title) => assert_eq!(title, "Coke"),
        _ => panic!("Enter should choose"),
    }
    l.handle_event(key(Key::Esc));
    assert!(!l.showing_filter());
    assert_eq!(l.filtered_count(), 3);
    assert!(matches!(l.handle_event(ch('q')), ListAction::Quit));
    assert!(matches!(l.handle_event(InputEvent::Key(Key::Char('c'), CTRL)), ListAction::Quit));
}

#[test]
fn list_session_enter_on_empty_view_continues() {
    let mut l = snacks();
    l.handle_event(ch('/'));
    l.handle_event(ch('z'));
    assert_eq!(l.filtered_count(), 0);
    assert!(matches!(l.handle_event(key(Key::Enter)), ListAction::Continue));
}

#[test]
fn menu_session_moves_ticks_and_chooses() {
    let items = vec!["Tea".to_string(), "Coffee".to_string()];
    let mut m = Menu::new("T".into(), "S".into(), items, 2).unwrap();
    assert!(matches!(m.handle_event(ch('j')), MenuAction::Continue));
    assert_eq!(m.selected(), Some(1));
    m.handle_event(InputEvent::Key(Key::Char('t'), CTRL));
    assert!(m.items()[1].selected);
    m.handle_event(ch('t'));
    assert!(m.items()[1].selected);
    m.handle_event(key(Key::Up));
    match m.handle_event(key(Key::Enter)) {
        MenuAction::Chosen(name) => assert_eq!(name, "Tea"),
        _ => panic!("Enter should choose"),
    }
    assert!(matches!(m.handle_event(ch('q')), MenuAction::Quit));
}

#[test]
fn table_and_viewport_sessions() {
    let data = (0..5).map(|i| vec![i.to_string()]).collect();
    let mut t = Table::new(vec!["N".to_string()], data, 0, 1, 2).unwrap();
    assert!(!t.handle_event(key(Key::Down)));
    assert!(!t.handle_event(key(Key::Down)));
    assert_eq!((t.selected_row(), t.scroll_offset()), (2, 1));
    assert!(!t.handle_event(ch('q')));
    assert!(t.handle_event(key(Key::Esc)));

    let text = (1..=8).map(|i| format!("L{}", i)).collect::<Vec<_>>().join("\n");
    let mut v = Viewport::new("H".into(), text, 3, 20, 1).unwrap();
    assert!(!v.handle_event(InputEvent::ScrollDown));
    assert!(!v.handle_event(ch('j')));
    assert_eq!(v.scroll_offset(), 2);
    assert!(!v.handle_event(key(Key::PageDown)));
    assert_eq!(v.scroll_offset(), 5);
    assert!(!v.handle_event(key(Key::PageUp)));
    assert!(!v.handle_event(InputEvent::ScrollUp));
    assert_eq!(v.scroll_offset(), 1);
    assert!(!v.handle_event(InputEvent::Key(Key::Char('c'), Modifiers { control: true, other: true })));
    assert!(v.handle_event(InputEvent::Key(Key::Char('c'), CTRL)));
    assert!(v.handle_event(ch('q')));
}

#[test]
fn closing_events() {
    assert!(closes_on_escape(key(Key::Esc)));
    assert!(closes_on_escape(InputEvent::Key(Key::Char('c'), CTRL)));
    assert!(!closes_on_escape(ch('q')));
    assert!(closes_on_escape_or_q(ch('q')));
    assert!(!closes_on_escape_or_q(InputEvent::Other));
}
