use synterm::InputLine;

fn line_text(line: &InputLine) -> String {
    line.text.iter().collect()
}

#[test]
fn editor_insert_advances_cursor() {
    let mut line = InputLine::new();
    line.insert('h');
    line.insert('i');
    assert_eq!(line_text(&line), "hi");
    assert_eq!(line.cursor, 2);
    line.move_left();
    line.insert('e');
    assert_eq!(line_text(&line), "hei");
    assert_eq!(line.cursor, 2);
}

#[test]
fn editor_delete_before_cursor() {
    let mut line = InputLine::new();
    for c in "abc".chars() {
        line.insert(c);
    }
    line.delete_before_cursor();
    assert_eq!(line_text(&line), "ab");
    assert_eq!(line.cursor, 2);
}

#[test]
fn editor_boundary_operations_are_no_ops() {
    let mut line = InputLine::new();
    line.delete_before_cursor();
    line.move_left();
    assert_eq!(line_text(&line), "");
    assert_eq!(line.cursor, 0);
    line.insert('x');
    line.move_right();
    assert_eq!(line.cursor, 1);
}

#[test]
fn editor_cursor_stays_in_bounds_over_any_sequence() {
    let mut line = InputLine::new();
    let ops: [u8; 16] = [0, 0, 2, 1, 3, 0, 2, 2, 2, 1, 1, 1, 3, 3, 0, 1];
    for (i, op) in ops.iter().enumerate() {
        match op {
            0 => line.insert((b'a' + (i as u8 % 26)) as char),
            1 => line.delete_before_cursor(),
            2 => line.move_left(),
            _ => line.move_right(),
        }
        assert!(line.cursor <= line.text.len());
    }
}

#[test]
fn editor_replace_moves_cursor_to_end() {
    let mut line = InputLine::new();
    line.insert('x');
    line.replace("recalled".chars().collect());
    assert_eq!(line_text(&line), "recalled");
    assert_eq!(line.cursor, 8);
}

#[test]
fn editor_clear_empties_line() {
    let mut line = InputLine::new();
    line.replace("abc".chars().collect());
    line.clear();
    assert_eq!(line_text(&line), "");
    assert_eq!(line.cursor, 0);
}
