use ezhuthu::{Document, Editor, Frame, Key, Position, Size};

fn chars(s: &str) -> Vec<char> {
    s.chars().collect()
}

fn text(v: &[char]) -> String {
    v.iter().collect()
}

fn doc(lines: &[&str]) -> Document {
    let mut t = String::new();
    for l in lines {
        t.push_str(l);
        t.push('\n');
    }
    Document::from_text(&chars(&t))
}

fn editor(lines: &[&str], width: u16, height: u16) -> Editor {
    Editor::new(doc(lines), Size { width, height }, chars("0.1.0"))
}

fn screen(f: &Frame) -> (Vec<String>, Position) {
    match f {
        Frame::Screen { lines, cursor } => (lines.iter().map(|l| text(l)).collect(), *cursor),
        Frame::Farewell { .. } => panic!("expected a screen frame"),
    }
}

fn at(e: &Editor) -> (usize, usize) {
    let p = e.cursor_position();
    (p.x, p.y)
}

#[test]
fn new_editor_starts_at_origin() {
    let e = editor(&["abc"], 80, 24);
    assert_eq!(at(&e), (0, 0));
    assert_eq!(e.offset(), Position { x: 0, y: 0 });
    assert!(!e.should_quit());
    assert_eq!(e.size(), Size { width: 80, height: 24 });
    assert_eq!(e.document().len(), 1);
}

#[test]
fn empty_document_frame_shows_banner() {
    let e = Editor::new(Document::default(), Size { width: 80, height: 24 }, chars("0.1.0"));
    let (lines, cursor) = screen(&e.refresh_screen());
    assert_eq!(lines.len(), 23);
    let banner = format!("~{}Ezhuthu editor -- version 0.1.0", " ".repeat(23));
    for (r, l) in lines.iter().enumerate() {
        if r == 8 {
            assert_eq!(l, &banner);
        } else {
            assert_eq!(l, "~");
        }
    }
    assert_eq!(cursor, Position { x: 0, y: 0 });
}

#[test]
fn banner_is_cut_at_terminal_width() {
    let e = Editor::new(Document::default(), Size { width: 10, height: 6 }, chars("0.1.0"));
    assert_eq!(text(&e.draw_msg()), "~Ezhuthu e");
    let (lines, _) = screen(&e.refresh_screen());
    assert_eq!(lines, vec!["~", "~", "~Ezhuthu e", "~", "~"]);
}

#[test]
fn down_down_right_clamps_to_row_length() {
    let mut e = editor(&["abc", "de", "fghij"], 80, 24);
    e.process_key_press(Key::Down);
    e.process_key_press(Key::Down);
    for _ in 0..6 {
        e.process_key_press(Key::Right);
    }
    assert_eq!(at(&e), (5, 2));
}

#[test]
fn vertical_move_clamps_column() {
    let mut e = editor(&["abcdef", "de"], 80, 24);
    e.process_key_press(Key::End);
    assert_eq!(at(&e), (6, 0));
    e.process_key_press(Key::Down);
    assert_eq!(at(&e), (2, 1));
    e.process_key_press(Key::Down);
    assert_eq!(at(&e), (0, 2));
}

#[test]
fn down_past_last_row_is_no_op() {
    let mut e = editor(&["abc", "de"], 80, 24);
    e.process_key_press(Key::Down);
    e.process_key_press(Key::Down);
    assert_eq!(at(&e), (0, 2));
    let off = e.offset();
    e.process_key_press(Key::Down);
    assert_eq!(at(&e), (0, 2));
    assert_eq!(e.offset(), off);
}

#[test]
fn up_and_left_at_origin_are_no_ops() {
    let mut e = editor(&["abc"], 80, 24);
    e.process_key_press(Key::Up);
    e.process_key_press(Key::Left);
    assert_eq!(at(&e), (0, 0));
}

#[test]
fn home_then_end() {
    let mut e = editor(&["hello world"], 80, 24);
    e.process_key_press(Key::Right);
    e.process_key_press(Key::Right);
    e.process_key_press(Key::Home);
    assert_eq!(at(&e), (0, 0));
    e.process_key_press(Key::End);
    assert_eq!(at(&e), (11, 0));
}

#[test]
fn page_down_from_top_long_document() {
    let lines: Vec<String> = (0..30).map(|i| format!("line {}", i)).collect();
    let refs: Vec<&str> = lines.iter().map(|s| s.as_str()).collect();
    let mut e = editor(&refs, 80, 24);
    e.process_key_press(Key::PageDown);
    assert_eq!(at(&e).1, 24);
    e.process_key_press(Key::PageDown);
    assert_eq!(at(&e).1, 30);
    e.process_key_press(Key::PageUp);
    assert_eq!(at(&e).1, 6);
    e.process_key_press(Key::PageUp);
    assert_eq!(at(&e).1, 0);
}

#[test]
fn page_down_from_top_document_of_screen_height() {
    let lines: Vec<String> = (0..24).map(|i| format!("{}", i)).collect();
    let refs: Vec<&str> = lines.iter().map(|s| s.as_str()).collect();
    let mut e = editor(&refs, 80, 24);
    e.process_key_press(Key::PageDown);
    assert_eq!(at(&e).1, 24);
}

#[test]
fn page_down_from_top_short_document() {
    let mut e = editor(&["a", "b", "c"], 80, 24);
    e.process_key_press(Key::PageDown);
    assert_eq!(at(&e).1, 3);
}

#[test]
fn other_keys_change_nothing() {
    let mut e = editor(&["abc"], 80, 24);
    e.process_key_press(Key::Right);
    e.process_key_press(Key::Char('x'));
    e.process_key_press(Key::Ctrl('a'));
    e.process_key_press(Key::Other);
    assert_eq!(at(&e), (1, 0));
    assert!(!e.should_quit());
}

#[test]
fn scroll_follows_cursor_down_and_back_up() {
    let lines: Vec<String> = (0..10).map(|i| format!("{}", i)).collect();
    let refs: Vec<&str> = lines.iter().map(|s| s.as_str()).collect();
    let mut e = editor(&refs, 20, 4);
    for _ in 0..5 {
        e.process_key_press(Key::Down);
    }
    assert_eq!(at(&e), (0, 5));
    assert_eq!(e.offset(), Position { x: 0, y: 2 });
    for _ in 0..4 {
        e.process_key_press(Key::Up);
    }
    assert_eq!(e.offset(), Position { x: 0, y: 1 });
    let (drawn, cursor) = screen(&e.refresh_screen());
    assert_eq!(drawn, vec!["1", "2", "3"]);
    assert_eq!(cursor, Position { x: 0, y: 0 });
}

#[test]
fn horizontal_scroll_windows_rows() {
    let mut e = editor(&["abcdefghij", "xy"], 4, 3);
    for _ in 0..6 {
        e.process_key_press(Key::Right);
    }
    assert_eq!(at(&e), (6, 0));
    assert_eq!(e.offset(), Position { x: 3, y: 0 });
    let (drawn, cursor) = screen(&e.refresh_screen());
    assert_eq!(drawn, vec!["defg", ""]);
    assert_eq!(cursor, Position { x: 3, y: 0 });
    let row = e.document().row(0).unwrap();
    assert_eq!(text(&e.draw_row(row)), "defg");
}

#[test]
fn cursor_stays_in_view_after_moves() {
    let lines: Vec<String> = (0..50).map(|i| "x".repeat(i % 17)).collect();
    let refs: Vec<&str> = lines.iter().map(|s| s.as_str()).collect();
    let mut e = editor(&refs, 5, 4);
    let keys = [
        Key::End, Key::PageDown, Key::Down, Key::End, Key::Right, Key::PageDown, Key::Up,
        Key::Home, Key::PageUp, Key::Left, Key::End, Key::PageDown, Key::PageDown, Key::Down,
    ];
    for k in keys.iter() {
        e.process_key_press(*k);
        let (x, y) = at(&e);
        let off = e.offset();
        assert!(off.y <= y && y < off.y + 4);
        assert!(off.x <= x && x < off.x + 5);
        assert!(y <= 50);
        let w = e.document().row(y).map(|r| r.len()).unwrap_or(0);
        assert!(x <= w);
    }
}

#[test]
fn quit_key_gives_farewell_frame() {
    let mut e = editor(&["abc"], 80, 24);
    e.process_key_press(Key::Down);
    e.process_key_press(Key::Ctrl('q'));
    assert!(e.should_quit());
    match e.refresh_screen() {
        Frame::Farewell { message } => assert_eq!(text(&message), "Goodbye Moon man!"),
        Frame::Screen { .. } => panic!("expected the farewell frame"),
    }
}

#[test]
fn run_stops_after_quit_key() {
    let mut e = editor(&["abc", "de"], 80, 24);
    let keys = vec![Key::Right, Key::Down, Key::Ctrl('q'), Key::Up, Key::Home];
    let frames = e.run(&keys);
    assert_eq!(frames.len(), 4);
    assert!(e.should_quit());
    assert_eq!(at(&e), (1, 1));
    let (_, c) = screen(&frames[2]);
    assert_eq!(c, Position { x: 1, y: 1 });
    assert!(matches!(frames[3], Frame::Farewell { .. }));
}

#[test]
fn run_without_quit_uses_all_keys() {
    let mut e = editor(&["abc", "de"], 80, 24);
    let frames = e.run(&vec![Key::Down, Key::End]);
    assert_eq!(frames.len(), 3);
    assert!(!e.should_quit());
    assert_eq!(at(&e), (2, 1));
    let (lines, c) = screen(&frames[2]);
    assert_eq!(lines[0], "abc");
    assert_eq!(lines[1], "de");
    assert_eq!(lines[2], "~");
    assert_eq!(c, Position { x: 2, y: 1 });
}

#[test]
fn run_on_ended_session_draws_farewell_only() {
    let mut e = editor(&["abc"], 80, 24);
    e.process_key_press(Key::Ctrl('q'));
    let frames = e.run(&vec![Key::Down]);
    assert_eq!(frames.len(), 1);
    assert_eq!(at(&e), (0, 0));
}

#[test]
fn position_default_is_origin() {
    assert_eq!(Position::default(), Position { x: 0, y: 0 });
}

#[test]
fn tiny_terminal_draws_nothing() {
    let mut e = editor(&["abc"], 0, 0);
    e.process_key_press(Key::Right);
    let (lines, _) = screen(&e.refresh_screen());
    assert!(lines.is_empty());
    assert_eq!(at(&e), (1, 0));
}
