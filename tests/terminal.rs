use helix_ui::{ANSIParser, Action, Cell, CursorStyle, OutOfRange, Step, Terminal, COLS, ROWS};

fn feed(t: &mut Terminal, bytes: &[u8]) -> bool {
    t.consume_chunk(bytes)
}

fn cell_of(t: &Terminal, row: usize, col: usize) -> Cell {
    t.snapshot().grid[row][col]
}

#[test]
fn new_screen_is_blank() {
    let t = Terminal::new();
    let snap = t.snapshot();
    assert_eq!(snap.grid.len(), ROWS);
    for row in &snap.grid {
        assert_eq!(row.len(), COLS);
        for cell in row {
            assert_eq!(*cell, Cell::new());
        }
    }
    assert_eq!(snap.cursor, (0, 0));
}

#[test]
fn printable_text_fills_cells_left_to_right() {
    let mut t = Terminal::new();
    assert!(!feed(&mut t, b"\x1b[4;7H"));
    assert!(!feed(&mut t, b"hello, world"));
    let snap = t.snapshot();
    for (i, ch) in "hello, world".chars().enumerate() {
        assert_eq!(snap.grid[4][7 + i], Cell { content: ch, bg: None, fg: None });
    }
    assert_eq!(snap.grid[4][6], Cell::new());
    assert_eq!(snap.grid[4][19], Cell::new());
    assert_eq!(snap.cursor, (4, 19));
}

#[test]
fn printed_text_takes_the_active_colors() {
    let mut t = Terminal::new();
    feed(&mut t, b"\x1b[38;2;1;2;3m\x1b[48;2;4;5;6mab");
    let c = Cell { content: 'a', fg: Some((1, 2, 3)), bg: Some((4, 5, 6)) };
    assert_eq!(cell_of(&t, 0, 0), c);
    assert_eq!(cell_of(&t, 0, 1), Cell { content: 'b', ..c });
}

#[test]
fn cursor_position_is_taken_unadjusted() {
    let mut t = Terminal::new();
    feed(&mut t, b"\x1b[5;10H");
    assert_eq!(t.snapshot().cursor, (5, 10));
}

#[test]
fn cursor_position_without_two_parameters_is_ignored() {
    let mut t = Terminal::new();
    feed(&mut t, b"\x1b[3;4H");
    feed(&mut t, b"\x1b[7H");
    assert_eq!(t.snapshot().cursor, (3, 4));
}

#[test]
fn truecolor_foreground_then_default() {
    let mut t = Terminal::new();
    feed(&mut t, b"\x1b[38;2;255;0;0mX\x1b[39mY");
    assert_eq!(cell_of(&t, 0, 0), Cell { content: 'X', fg: Some((255, 0, 0)), bg: None });
    assert_eq!(cell_of(&t, 0, 1), Cell { content: 'Y', fg: None, bg: None });
}

#[test]
fn background_default_keeps_foreground() {
    let mut t = Terminal::new();
    feed(&mut t, b"\x1b[38;2;9;9;9m\x1b[48;2;1;1;1m\x1b[49mZ");
    assert_eq!(cell_of(&t, 0, 0), Cell { content: 'Z', fg: Some((9, 9, 9)), bg: None });
}

#[test]
fn reset_clears_both_colors() {
    let mut t = Terminal::new();
    feed(&mut t, b"\x1b[38;2;10;20;30m\x1b[48;2;40;50;60mA\x1b[0mB");
    assert_eq!(
        cell_of(&t, 0, 0),
        Cell { content: 'A', fg: Some((10, 20, 30)), bg: Some((40, 50, 60)) }
    );
    assert_eq!(cell_of(&t, 0, 1), Cell { content: 'B', fg: None, bg: None });
}

#[test]
fn empty_color_selection_resets() {
    let mut t = Terminal::new();
    feed(&mut t, b"\x1b[38;2;10;20;30m\x1b[mB");
    assert_eq!(cell_of(&t, 0, 0), Cell { content: 'B', fg: None, bg: None });
}

#[test]
fn default_code_with_more_values_is_ignored() {
    let mut t = Terminal::new();
    feed(&mut t, b"\x1b[38;2;7;8;9m\x1b[39;1mQ");
    assert_eq!(cell_of(&t, 0, 0), Cell { content: 'Q', fg: Some((7, 8, 9)), bg: None });
}

#[test]
fn short_truecolor_selection_is_ignored() {
    let mut t = Terminal::new();
    feed(&mut t, b"\x1b[38;2;7mQ");
    assert_eq!(cell_of(&t, 0, 0), Cell { content: 'Q', fg: None, bg: None });
}

#[test]
fn sequence_split_over_chunks_matches_one_chunk() {
    let stream: &[u8] = b"\x1b[2;3H\x1b[38;2;0;128;255mxy";
    let mut whole = Terminal::new();
    feed(&mut whole, stream);
    for cut in 0..=stream.len() {
        let mut split = Terminal::new();
        feed(&mut split, &stream[..cut]);
        feed(&mut split, &stream[cut..]);
        assert_eq!(split.snapshot(), whole.snapshot());
    }
}

#[test]
fn byte_at_a_time_matches_one_chunk() {
    let stream: &[u8] = b"\x1b[1;1H\x1b[48;2;3;3;3mab\x1b[0mc";
    let mut whole = Terminal::new();
    feed(&mut whole, stream);
    let mut single = Terminal::new();
    for b in stream {
        single.consume(*b);
    }
    assert_eq!(single.snapshot(), whole.snapshot());
}

#[test]
fn unknown_final_character_changes_nothing() {
    let mut t = Terminal::new();
    feed(&mut t, b"\x1b[2;2H\x1b[38;2;1;1;1mab");
    let before = t.snapshot();
    feed(&mut t, b"\x1b[12;34;56Z");
    assert_eq!(t.snapshot(), before);
    feed(&mut t, b"c");
    assert_eq!(cell_of(&t, 2, 4), Cell { content: 'c', fg: Some((1, 1, 1)), bg: None });
}

#[test]
fn other_escape_classes_change_nothing() {
    let mut t = Terminal::new();
    feed(&mut t, b"ab");
    let before = t.snapshot();
    feed(&mut t, b"\x1b]0;title\x07\x1bPq#0\x1b\\\x1b7\r\n\x07");
    assert_eq!(t.snapshot(), before);
}

#[test]
fn end_to_end_stream() {
    let mut t = Terminal::new();
    assert!(!feed(&mut t, b"\x1b[3;3Hhi\x1b[38;2;0;255;0mok"));
    let snap = t.snapshot();
    // the row and column travel unadjusted, so "3;3" lands on index 3
    assert_eq!(snap.grid[3][3], Cell { content: 'h', fg: None, bg: None });
    assert_eq!(snap.grid[3][4], Cell { content: 'i', fg: None, bg: None });
    assert_eq!(snap.grid[3][5], Cell { content: 'o', fg: Some((0, 255, 0)), bg: None });
    assert_eq!(snap.grid[3][6], Cell { content: 'k', fg: Some((0, 255, 0)), bg: None });
    assert_eq!(snap.cursor, (3, 7));
}

#[test]
fn print_off_the_screen_is_refused() {
    let mut t = Terminal::new();
    assert!(!feed(&mut t, b"\x1b[0;80Hx"));
    let before = t.snapshot();
    assert_eq!(before.cursor, (0, 81));
    assert!(feed(&mut t, b"y"));
    assert_eq!(t.snapshot(), before);
}

#[test]
fn cursor_request_off_the_screen_is_refused() {
    let mut t = Terminal::new();
    assert!(!feed(&mut t, b"\x1b[2;3H"));
    assert!(feed(&mut t, b"\x1b[30;100H"));
    assert_eq!(t.snapshot().cursor, (2, 3));
    assert!(feed(&mut t, b"\x1b[25;0H"));
    assert!(feed(&mut t, b"\x1b[0;81H"));
    assert_eq!(t.snapshot().cursor, (2, 3));
    assert!(!feed(&mut t, b"\x1b[24;80H"));
    assert_eq!(t.snapshot().cursor, (24, 80));
}

#[test]
fn csi_dispatch_reports_requested_position() {
    let mut p = ANSIParser::new();
    assert_eq!(
        p.csi_dispatch(&vec![vec![30], vec![100]], &vec![], false, 'H'),
        Err(OutOfRange { row: 30, col: 100 })
    );
    assert_eq!((p.row(), p.col()), (0, 0));
    let act = Action::CsiDispatch { params: vec![vec![7], vec![81]], intermediates: vec![], ignore: false, action: 'H' };
    assert_eq!(p.perform(&act), Err(OutOfRange { row: 7, col: 81 }));
    assert_eq!(p.perform(&Action::Print('a')), Ok(()));
    assert_eq!(p.cell(0, 0).content, 'a');
}

#[test]
fn print_past_last_column_is_refused() {
    let mut p = ANSIParser::new();
    assert_eq!(p.csi_dispatch(&vec![vec![0], vec![80]], &vec![], false, 'H'), Ok(()));
    assert_eq!(p.print('a'), Ok(()));
    assert_eq!(p.cell(0, 80).content, 'a');
    assert_eq!(p.print('b'), Err(OutOfRange { row: 0, col: 81 }));
    assert_eq!((p.row(), p.col()), (0, 81));
}

#[test]
fn perform_all_counts_refusals() {
    let mut p = ANSIParser::new();
    let acts = vec![
        Action::CsiDispatch { params: vec![vec![24], vec![79]], intermediates: vec![], ignore: false, action: 'H' },
        Action::Print('a'),
        Action::Print('b'),
        Action::Print('c'),
        Action::Execute(7),
        Action::Print('d'),
    ];
    assert_eq!(p.perform_all(&acts), 2);
    assert_eq!(p.cell(24, 79).content, 'a');
    assert_eq!(p.cell(24, 80).content, 'b');
}

#[test]
fn csi_dispatch_selects_colors() {
    let mut p = ANSIParser::new();
    assert_eq!(p.csi_dispatch(&vec![vec![48], vec![2], vec![5], vec![6], vec![7]], &vec![], false, 'm'), Ok(()));
    assert_eq!(p.current_bg(), Some((5, 6, 7)));
    assert_eq!(p.current_fg(), None);
    assert_eq!(p.csi_dispatch(&vec![vec![38, 2, 1, 2, 3]], &vec![], false, 'm'), Ok(()));
    assert_eq!(p.current_fg(), Some((1, 2, 3)));
    assert_eq!(p.csi_dispatch(&vec![vec![0]], &vec![], false, 'm'), Ok(()));
    assert_eq!((p.current_fg(), p.current_bg()), (None, None));
}

#[test]
fn cell_setters() {
    let mut c = Cell::new();
    assert_eq!(c, Cell { content: ' ', bg: None, fg: None });
    c.set_content(&'q');
    c.set_fg(Some((1, 2, 3)));
    c.set_bg(Some((4, 5, 6)));
    assert_eq!(c, Cell { content: 'q', fg: Some((1, 2, 3)), bg: Some((4, 5, 6)) });
    c.set_fg(None);
    c.set_bg(None);
    assert_eq!(c, Cell { content: 'q', fg: None, bg: None });
}

#[test]
fn read_outcomes() {
    let mut t = Terminal::new();
    let buf = *b"\x1b[1;2Hzz and more";
    match t.on_read(&buf, Some(8)) {
        Step::Publish { snapshot, refused } => {
            assert!(!refused);
            assert_eq!(snapshot.cursor, (1, 4));
            assert_eq!(snapshot.grid[1][2].content, 'z');
            assert_eq!(snapshot.grid[1][4].content, ' ');
        }
        Step::End => panic!("expected a snapshot"),
    }
    let before = t.snapshot();
    assert_eq!(t.on_read(&buf, Some(0)), Step::End);
    assert_eq!(t.on_read(&buf, None), Step::End);
    assert_eq!(t.snapshot(), before);
}

#[test]
fn cursor_style_follows_mode_and_position() {
    let mut t = Terminal::new();
    assert_eq!(t.snapshot().cursor_style(), Some(CursorStyle::Block));
    feed(&mut t, b"\x1b[23;2HINS\x1b[5;5H");
    assert_eq!(t.snapshot().cursor_style(), Some(CursorStyle::Outline));
    feed(&mut t, b"\x1b[24;80H");
    assert_eq!(t.snapshot().cursor_style(), Some(CursorStyle::Outline));
    feed(&mut t, b"x");
    assert_eq!(t.snapshot().cursor, (24, 81));
    assert_eq!(t.snapshot().cursor_style(), None);
}
