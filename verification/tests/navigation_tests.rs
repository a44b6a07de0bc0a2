use text_viewer::viewer::{InputEvent, Reaction, TerminalSize, TextViewer};

fn numbered_lines(n: usize) -> Vec<String> {
    let mut lines: Vec<String> = Vec::new();
    let mut i: usize = 0;
    while i < n {
        lines.push(format!("line {}", i));
        i += 1;
    }
    lines
}

fn make_viewer(n: usize, width: usize, height: usize) -> TextViewer {
    TextViewer::init(
        numbered_lines(n),
        String::from("sample.txt"),
        TerminalSize { width, height },
    )
}

fn visible_strings(v: &TextViewer) -> Vec<String> {
    v.window.content.iter().cloned().collect()
}

#[test]
fn init_starts_at_the_top_left() {
    let v = make_viewer(10, 80, 8);
    assert_eq!(v.cursor.column, 1);
    assert_eq!(v.cursor.row, 1);
    assert_eq!(v.window.start_offset, 0);
    assert_eq!(v.window.capacity, 5);
    assert_eq!(v.file_name, "sample.txt");
    assert_eq!(visible_strings(&v), numbered_lines(10)[0..5].to_vec());
}

#[test]
fn left_clamps_at_column_one() {
    let mut v = make_viewer(10, 80, 8);
    assert_eq!(v.handle_event(InputEvent::Left), Reaction::Redraw);
    assert_eq!(v.cursor.column, 1);
    assert_eq!(v.handle_event(InputEvent::Right), Reaction::Redraw);
    assert_eq!(v.handle_event(InputEvent::Left), Reaction::Redraw);
    assert_eq!(v.cursor.column, 1);
}

#[test]
fn right_clamps_at_terminal_width() {
    let mut v = make_viewer(10, 3, 8);
    assert_eq!(v.handle_event(InputEvent::Right), Reaction::Redraw);
    assert_eq!(v.handle_event(InputEvent::Right), Reaction::Redraw);
    assert_eq!(v.cursor.column, 3);
    assert_eq!(v.handle_event(InputEvent::Right), Reaction::Redraw);
    assert_eq!(v.cursor.column, 3);
}

#[test]
fn backspace_moves_left_and_only_repositions() {
    let mut v = make_viewer(10, 80, 8);
    v.handle_event(InputEvent::Right);
    v.handle_event(InputEvent::Right);
    assert_eq!(v.handle_event(InputEvent::Backspace), Reaction::Reposition);
    assert_eq!(v.cursor.column, 2);
    assert_eq!(v.cursor.row, 1);
}

#[test]
fn up_at_the_top_changes_nothing() {
    let mut v = make_viewer(10, 80, 8);
    let before = visible_strings(&v);
    assert_eq!(v.handle_event(InputEvent::Up), Reaction::Reposition);
    assert_eq!(v.cursor.row, 1);
    assert_eq!(v.cursor.column, 1);
    assert_eq!(v.window.start_offset, 0);
    assert_eq!(visible_strings(&v), before);
}

#[test]
fn down_at_the_bottom_changes_nothing() {
    // 10 lines, capacity 5: four Downs reach the bottom row, five more slide
    // the window to the document's tail.
    let mut v = make_viewer(10, 80, 8);
    for _ in 0..9 {
        v.handle_event(InputEvent::Down);
    }
    assert_eq!(v.window.start_offset, 5);
    assert_eq!(v.cursor.row, 5);
    let before = visible_strings(&v);
    assert_eq!(v.handle_event(InputEvent::Down), Reaction::Reposition);
    assert_eq!(v.window.start_offset, 5);
    assert_eq!(v.cursor.row, 5);
    assert_eq!(visible_strings(&v), before);
}

#[test]
fn up_from_the_top_edge_slides_one_line() {
    let mut v = make_viewer(10, 80, 8);
    for _ in 0..6 {
        v.handle_event(InputEvent::Down);
    }
    for _ in 0..4 {
        v.handle_event(InputEvent::Up);
    }
    // Start offset 2, cursor back on row 1: the next Up slides, not moves.
    assert_eq!(v.window.start_offset, 2);
    assert_eq!(v.cursor.row, 1);
    assert_eq!(v.handle_event(InputEvent::Up), Reaction::Redraw);
    assert_eq!(v.window.start_offset, 1);
    assert_eq!(v.cursor.row, 1);
    assert_eq!(visible_strings(&v)[0], "line 1");
}

#[test]
fn down_from_the_bottom_edge_slides_one_line() {
    let mut v = make_viewer(10, 80, 8);
    for _ in 0..5 {
        v.handle_event(InputEvent::Down);
    }
    assert_eq!(v.window.start_offset, 1);
    assert_eq!(v.cursor.row, 5);
    assert_eq!(v.handle_event(InputEvent::Down), Reaction::Redraw);
    assert_eq!(v.window.start_offset, 2);
    assert_eq!(v.cursor.row, 5);
    assert_eq!(visible_strings(&v)[4], "line 6");
}

#[test]
fn quit_stops_and_other_keys_only_redraw() {
    let mut v = make_viewer(10, 80, 8);
    let before = visible_strings(&v);
    assert_eq!(v.handle_event(InputEvent::Other), Reaction::Redraw);
    assert_eq!(v.handle_event(InputEvent::Quit), Reaction::Quit);
    assert_eq!(v.cursor.column, 1);
    assert_eq!(v.cursor.row, 1);
    assert_eq!(v.window.start_offset, 0);
    assert_eq!(visible_strings(&v), before);
}

#[test]
fn set_pos_places_the_cursor() {
    let mut v = make_viewer(10, 80, 8);
    v.set_pos(7, 3);
    assert_eq!(v.cursor.column, 7);
    assert_eq!(v.cursor.row, 3);
}

#[test]
fn hundred_line_scenario() {
    // 100 lines, capacity 20 (terminal height 23).
    let mut v = make_viewer(100, 80, 23);
    assert_eq!(v.window.start_offset, 0);
    assert_eq!(visible_strings(&v), numbered_lines(100)[0..20].to_vec());

    for _ in 0..19 {
        v.handle_event(InputEvent::Down);
    }
    assert_eq!(v.cursor.row, 20);
    assert_eq!(v.window.start_offset, 0);

    assert_eq!(v.handle_event(InputEvent::Down), Reaction::Redraw);
    assert_eq!(v.window.start_offset, 1);
    assert_eq!(v.cursor.row, 20);
    assert_eq!(visible_strings(&v), numbered_lines(100)[1..21].to_vec());

    for _ in 0..5 {
        v.handle_event(InputEvent::Up);
    }
    assert_eq!(v.cursor.row, 15);
    assert_eq!(v.window.start_offset, 1);
}

#[test]
fn small_document_scenario() {
    // 5 lines, capacity 20: the window shows exactly the 5 real lines and the
    // cursor is clamped to them, never sitting below the last real line.
    let mut v = make_viewer(5, 80, 23);
    assert_eq!(visible_strings(&v), numbered_lines(5));
    for _ in 0..8 {
        v.handle_event(InputEvent::Down);
    }
    assert_eq!(v.cursor.row, 5);
    assert_eq!(v.window.start_offset, 0);
    assert_eq!(visible_strings(&v), numbered_lines(5));
}

#[test]
fn empty_document_keeps_the_cursor_parked() {
    let mut v = make_viewer(0, 80, 8);
    assert_eq!(visible_strings(&v), Vec::<String>::new());
    assert_eq!(v.handle_event(InputEvent::Down), Reaction::Reposition);
    assert_eq!(v.handle_event(InputEvent::Up), Reaction::Reposition);
    assert_eq!(v.cursor.row, 1);
    assert_eq!(v.window.start_offset, 0);
}
