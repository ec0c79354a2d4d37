use flightctl::app::{App, InputMode, Key, TabState};

#[test]
fn tabs_wrap_both_ways() {
    let mut tabs = TabState::new(vec!["a", "b", "c"]);
    assert_eq!(tabs.index, 0);
    tabs.prev();
    assert_eq!(tabs.index, 2);
    tabs.next();
    assert_eq!(tabs.index, 0);
    tabs.next();
    assert_eq!(tabs.index, 1);
}

#[test]
fn editing_session() {
    let mut app = App::default();
    assert_eq!(app.input_mode, InputMode::Normal);
    assert!(!app.on_key(Key::Char('x')));
    assert!(app.input.is_empty());
    assert!(!app.on_key(Key::Char('i')));
    assert_eq!(app.input_mode, InputMode::Editing);
    for c in "hoi".chars() {
        app.on_key(Key::Char(c));
    }
    app.on_key(Key::Backspace);
    app.on_key(Key::Char('q'));
    assert_eq!(app.input, vec!['h', 'o', 'q']);
    app.on_key(Key::Enter);
    assert!(app.input.is_empty());
    assert_eq!(app.messages, vec![vec!['h', 'o', 'q']]);
    app.on_key(Key::Backspace);
    assert!(app.input.is_empty());
    app.on_key(Key::Esc);
    assert_eq!(app.input_mode, InputMode::Normal);
    assert!(app.on_key(Key::Char('q')));
}
