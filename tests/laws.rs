//! Concrete instances of the general properties of the library.

use patina::buffer::Buffer;
use patina::document::Document;
use patina::frontmatter::{Frontmatter, FrontmatterFormat};
use patina::history::{Edit, History};
use patina::selection::{Position, Selection};
use patina::Error;

fn cur(line: usize, col: usize) -> Selection {
    Selection::cursor(Position::new(line, col))
}

#[test]
fn extract_without_front_matter_gives_text_back() {
    for text in [
        "# Just a heading\n\nSome content.",
        "",
        "   plain text with leading spaces",
        "--- not closed\ntitle: x\n",
        "++ almost\n",
    ] {
        let (fm, body) = Frontmatter::extract(text);
        assert!(fm.is_none());
        assert_eq!(body, text);
    }
}

#[test]
fn extract_rejects_payload_that_is_not_a_mapping() {
    let text = "---\n- a\n- b\n---\nbody";
    let (fm, body) = Frontmatter::extract(text);
    assert!(fm.is_none());
    assert_eq!(body, text);
    let text = "+++\nthis is = = not toml\n+++\nbody";
    let (fm, body) = Frontmatter::extract(text);
    assert!(fm.is_none());
    assert_eq!(body, text);
}

#[test]
fn extract_round_trips_yaml_block() {
    let m = "title: Test\nauthor: Me";
    let b = "# Hello\n\nworld";
    let block = format!("---\n{}\n---", m);
    let text = format!("{}\n{}", block, b);
    let (fm, body) = Frontmatter::extract(&text);
    let fm = fm.unwrap();
    assert_eq!(fm.format, FrontmatterFormat::Yaml);
    assert_eq!(fm.raw, m);
    assert_eq!(fm.to_string(), block);
    assert_eq!(body, b);
}

#[test]
fn extract_round_trips_toml_block() {
    let m = "title = \"Test\"\ncount = 3";
    let b = "Body text";
    let block = format!("+++\n{}\n+++", m);
    let text = format!("{}\n{}", block, b);
    let (fm, body) = Frontmatter::extract(&text);
    let fm = fm.unwrap();
    assert_eq!(fm.format, FrontmatterFormat::Toml);
    assert_eq!(fm.to_string(), block);
    assert_eq!(fm.get_str("title"), Some("Test"));
    assert_eq!(body, b);
}

#[test]
fn extract_skips_leading_white_space_and_blank_lines_after_block() {
    let text = " \n\t---\ntitle: Spaced\n---\n\n\nBody";
    let (fm, body) = Frontmatter::extract(text);
    let fm = fm.unwrap();
    assert_eq!(fm.raw, "title: Spaced");
    assert_eq!(body, "Body");
}

#[test]
fn extract_closes_only_on_a_line_of_the_delimiter_alone() {
    let text = "---\ntitle: a\n--- \n---\nBody";
    let (fm, body) = Frontmatter::extract(text);
    assert!(fm.is_none());
    assert_eq!(body, text);
    let text = "---\nnote: |\n  ----\n---\nBody";
    let (fm, body) = Frontmatter::extract(text);
    let fm = fm.unwrap();
    assert_eq!(fm.raw, "note: |\n  ----");
    assert_eq!(body, "Body");
}

#[test]
fn extract_needs_the_opening_delimiter_alone_on_its_line() {
    let text = "---foo\ntitle: a\n---\nBody";
    let (fm, body) = Frontmatter::extract(text);
    assert!(fm.is_none());
    assert_eq!(body, text);
}

#[test]
fn front_matter_title_lookup() {
    let (fm, body) = Frontmatter::extract("---\ntitle: Test\n---\n\n# Hello");
    let fm = fm.unwrap();
    assert_eq!(fm.get("title").unwrap(), "Test");
    assert!(fm.get("missing").is_none());
    assert!(body.starts_with("# Hello"));
}

#[test]
fn get_str_skips_values_that_are_not_strings() {
    let (fm, _) = Frontmatter::extract("---\ntitle: Test\ncount: 3\n---\nx");
    let fm = fm.unwrap();
    assert_eq!(fm.get_str("title"), Some("Test"));
    assert_eq!(fm.get_str("count"), None);
    assert!(fm.get("count").is_some());
}

#[test]
fn buffer_always_has_a_line_and_a_line_feed_adds_one() {
    for text in ["", "a", "a\nb", "a\n", "\n\n"] {
        let mut b = Buffer::from_str(text);
        let n = b.len_lines();
        assert!(n >= 1);
        b.insert(b.len_chars(), "\n");
        assert_eq!(b.len_lines(), n + 1);
    }
    assert_eq!(Buffer::new().len_lines(), 1);
}

#[test]
fn line_col_maps_back_to_its_line() {
    let b = Buffer::from_str("Hello\n\nWorld!\nx");
    for line in 0..b.len_lines() {
        for col in 0..10 {
            let k = b.line_col_to_char(line, col);
            assert_eq!(b.char_to_line_col(k).0, line);
        }
    }
}

#[test]
fn line_col_clamps_to_last_character_of_line() {
    let b = Buffer::from_str("Hello\n\nWorld");
    assert_eq!(b.line_col_to_char(0, 0), 0);
    assert_eq!(b.line_col_to_char(0, 3), 3);
    assert_eq!(b.line_col_to_char(0, 10), 4);
    assert_eq!(b.line_col_to_char(1, 5), 6);
    assert_eq!(b.line_col_to_char(2, 1), 8);
    assert_eq!(b.line_col_to_char(2, 99), 11);
    assert_eq!(b.char_to_line_col(8), (2, 1));
    assert_eq!(b.char_to_line_col(12), (2, 5));
}

#[test]
fn buffer_replace_slice_and_lines() {
    let mut b = Buffer::from_str("one two three");
    assert!(!b.is_modified());
    b.replace(4, 7, "2");
    assert_eq!(b.text(), "one 2 three");
    assert!(b.is_modified());
    assert_eq!(b.slice(4, 5), "2");
    b.mark_saved();
    assert!(!b.is_modified());
    assert_eq!(b.text(), "one 2 three");
    let b = Buffer::from_str("a\nb");
    assert_eq!(b.line(0), Some("a\n".to_string()));
    assert_eq!(b.line(1), Some("b".to_string()));
    assert_eq!(b.line(2), None);
    assert!(Buffer::default().is_empty());
}

#[test]
fn undo_all_then_redo_all_restores_order() {
    let mut h = History::with_max_size(10);
    for i in 0..3 {
        h.record(Edit::insert(i, format!("{}", i), cur(0, i), cur(0, i + 1)));
    }
    for _ in 0..3 {
        assert!(h.undo().is_some());
    }
    assert_eq!(h.undo_count(), 0);
    assert_eq!(h.redo_count(), 3);
    for i in 0..3 {
        let e = h.redo().unwrap();
        assert_eq!(e.position, i);
        assert_eq!(e.inserted, format!("{}", i));
    }
    assert_eq!(h.undo_count(), 3);
    assert_eq!(h.redo_count(), 0);
    assert!(h.redo().is_none());
}

#[test]
fn record_after_undo_discards_redo() {
    let mut h = History::new();
    h.record(Edit::insert(0, "a".to_string(), cur(0, 0), cur(0, 1)));
    h.record(Edit::insert(1, "b".to_string(), cur(0, 1), cur(0, 2)));
    h.undo();
    assert!(h.can_redo());
    h.record(Edit::insert(1, "c".to_string(), cur(0, 1), cur(0, 2)));
    assert!(!h.can_redo());
    assert_eq!(h.redo_count(), 0);
    assert_eq!(h.undo_count(), 2);
}

#[test]
fn history_evicts_oldest_beyond_bound() {
    let mut h = History::with_max_size(2);
    for i in 0..3 {
        h.record(Edit::insert(i, "x".to_string(), cur(0, i), cur(0, i + 1)));
    }
    assert_eq!(h.undo_count(), 2);
    assert_eq!(h.undo().unwrap().position, 2);
    assert_eq!(h.undo().unwrap().position, 1);
    assert!(h.undo().is_none());
    let mut z = History::with_max_size(0);
    z.record(Edit::insert(0, "x".to_string(), cur(0, 0), cur(0, 1)));
    assert_eq!(z.undo_count(), 0);
}

#[test]
fn history_clear_and_peek() {
    let mut h = History::new();
    assert!(h.peek_undo().is_none());
    h.record(Edit::replace(3, "old".to_string(), "new".to_string(), cur(0, 3), cur(0, 6)));
    assert_eq!(h.peek_undo().unwrap().deleted, "old");
    h.undo();
    assert_eq!(h.peek_redo().unwrap().inserted, "new");
    h.clear();
    assert!(!h.can_undo());
    assert!(!h.can_redo());
}

#[test]
fn delete_then_undo_restores_text() {
    let mut doc = Document::from_content("Hello World");
    doc.cursor = (0, 5);
    doc.delete_forward();
    assert_eq!(doc.buffer.text(), "HelloWorld");
    assert_eq!(doc.history.peek_undo().unwrap().deleted, " ");
    assert_eq!(doc.undo(), Ok(true));
    assert_eq!(doc.buffer.text(), "Hello World");
    assert_eq!(doc.history.peek_redo().unwrap().deleted, " ");
    assert_eq!(doc.cursor, (0, 5));
    assert_eq!(doc.redo(), Ok(true));
    assert_eq!(doc.buffer.text(), "HelloWorld");
    assert_eq!(doc.redo(), Ok(false));
}

#[test]
fn typing_and_backspace_through_document() {
    let mut doc = Document::from_content("ab\ncd");
    doc.insert_char('X');
    assert_eq!(doc.buffer.text(), "Xab\ncd");
    assert_eq!(doc.cursor, (0, 1));
    doc.cursor = (1, 0);
    doc.insert_newline();
    assert_eq!(doc.buffer.text(), "Xab\n\ncd");
    assert_eq!(doc.cursor, (2, 0));
    doc.delete_backward();
    assert_eq!(doc.buffer.text(), "Xab\ncd");
    assert_eq!(doc.cursor, (1, 2));
    doc.cursor = (1, 0);
    doc.delete_backward();
    assert_eq!(doc.buffer.text(), "Xabcd");
    assert_eq!(doc.cursor, (0, 5));
    assert_eq!(doc.line_length(0), 5);
    assert_eq!(doc.line_length(5), 0);
    assert_eq!(doc.history.undo_count(), 4);
    assert_eq!(doc.undo(), Ok(true));
    assert_eq!(doc.buffer.text(), "Xab\ncd");
    assert_eq!(doc.cursor, (1, 0));
}

#[test]
fn typing_at_line_end_lands_before_its_last_character() {
    let mut doc = Document::new();
    doc.insert_char('H');
    doc.insert_char('i');
    assert_eq!(doc.buffer.text(), "iH");
    assert_eq!(doc.cursor, (0, 2));
}

#[test]
fn undo_of_a_record_outside_the_text_fails() {
    let mut doc = Document::from_content("abc");
    doc.history.record(Edit::insert(10, "xyz".to_string(), cur(0, 0), cur(0, 0)));
    assert!(matches!(doc.undo(), Err(Error::Buffer(_))));
    assert_eq!(doc.buffer.text(), "abc");
    assert_eq!(doc.history.undo_count(), 1);
    assert_eq!(Document::new().undo(), Ok(false));
}

#[test]
fn save_needs_a_path_and_writes_full_content() {
    let mut doc = Document::from_content("---\ntitle: T\n---\nbody");
    assert_eq!(doc.save().unwrap_err(), Error::NoPath);
    let job = doc.save_as("/tmp/notes.md".to_string()).unwrap();
    assert_eq!(job.path, "/tmp/notes.md");
    assert_eq!(job.content, doc.full_content());
    assert_eq!(job.content, "---\ntitle: T\n---\nbody");
    let plain = Document::from_file_content("a.md".to_string(), "just text");
    assert!(!plain.is_modified());
    assert_eq!(plain.save().unwrap().content, "just text");
}

#[test]
fn title_resolution_order() {
    let doc = Document::from_content("---\ntitle: Notes\n---\nx");
    assert_eq!(doc.title(), "Notes");
    let doc = Document::from_content("---\ntitle: 42\n---\nx");
    assert_eq!(doc.title(), "42");
    let mut doc = Document::from_content("no front matter");
    assert_eq!(doc.title(), "Untitled");
    doc.path = Some("/home/me/todo.md".to_string());
    assert_eq!(doc.title(), "todo.md");
}

#[test]
fn html_cache_is_rebuilt_only_when_stale() {
    let mut doc = Document::from_content("# One");
    let first = doc.html();
    assert!(first.contains("<h1>One</h1>"));
    doc.buffer.insert(0, "Two ");
    assert_eq!(doc.html(), first);
    doc.invalidate_cache();
    assert!(doc.html().contains("Two # One"));
}
