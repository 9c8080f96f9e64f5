use patina::selection::{Position, Selection};

#[test]
fn test_cursor() {
    let sel = Selection::cursor(Position::new(5, 10));
    assert!(sel.is_cursor());
    assert_eq!(sel.start(), sel.end());
}

#[test]
fn test_selection_order() {
    // Selection going forward
    let sel = Selection::new(Position::new(1, 5), Position::new(3, 10));
    assert_eq!(sel.start().line, 1);
    assert_eq!(sel.end().line, 3);

    // Selection going backward
    let sel = Selection::new(Position::new(3, 10), Position::new(1, 5));
    assert_eq!(sel.start().line, 1);
    assert_eq!(sel.end().line, 3);
}

#[test]
fn selection_ties_and_moves() {
    let p = Position::new(2, 4);
    let sel = Selection::new(p, p);
    assert_eq!(sel.start(), p);
    let mut s = Selection::new(Position::new(1, 1), Position::new(1, 1));
    s.move_cols(-5, true);
    assert_eq!(s.head, Position::new(1, 0));
    assert_eq!(s.anchor, Position::new(1, 1));
    assert_eq!(s.start(), Position::new(1, 0));
    s.move_lines(3, false);
    assert_eq!(s.head, Position::new(4, 0));
    assert!(s.is_cursor());
    s.move_lines(isize::MIN, false);
    assert_eq!(s.head.line, 0);
    let mut t = Selection::cursor(Position::new(usize::MAX - 1, 0));
    t.move_lines(isize::MAX, true);
    assert_eq!(t.head.line, usize::MAX);
}
