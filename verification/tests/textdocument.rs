use sparql_ls::textdocument::{
    Position, Range, TextDocumentContentChangeEvent, TextDocumentItem,
};

#[test]
fn full_changes() {
    let changes: Vec<TextDocumentContentChangeEvent> = vec![TextDocumentContentChangeEvent {
        text: "goodbye world".to_string(),
    }];
    let mut document: TextDocumentItem = TextDocumentItem {
        uri: "file:///dings".to_string(),
        language_id: "foo".to_string(),
        version: 1,
        text: "hello world".to_string(),
    };

    document.apply_changes(changes);
    assert_eq!(document.text, "goodbye world");
}

#[test]
fn no_changes() {
    let changes: Vec<TextDocumentContentChangeEvent> = vec![];
    let mut document: TextDocumentItem = TextDocumentItem {
        uri: "file:///dings".to_string(),
        language_id: "foo".to_string(),
        version: 1,
        text: "hello world".to_string(),
    };
    document.apply_changes(changes);
    assert_eq!(document.text, "hello world");
}

#[test]
fn apply_changes_keeps_identity() {
    let changes: Vec<TextDocumentContentChangeEvent> = vec![TextDocumentContentChangeEvent {
        text: "new text".to_string(),
    }];
    let mut document: TextDocumentItem = TextDocumentItem {
        uri: "file:///a".to_string(),
        language_id: "sparql".to_string(),
        version: 7,
        text: "old text".to_string(),
    };
    document.apply_changes(changes);
    assert_eq!(document.uri, "file:///a");
    assert_eq!(document.language_id, "sparql");
    assert_eq!(document.version, 7);
    assert_eq!(document.text, "new text");
}

#[test]
fn position_new_sets_fields() {
    let p = Position::new(3, 14);
    assert_eq!(p.line, 3);
    assert_eq!(p.character, 14);
}

#[test]
fn full_range_single_line() {
    let document = TextDocumentItem {
        uri: "file:///b".to_string(),
        language_id: "sparql".to_string(),
        version: 0,
        text: "hello".to_string(),
    };
    let r = document.get_full_range();
    assert_eq!(
        r,
        Range { start: Position::new(0, 0), end: Position::new(0, 5) }
    );
}

#[test]
fn full_range_multi_line() {
    let document = TextDocumentItem {
        uri: "file:///c".to_string(),
        language_id: "sparql".to_string(),
        version: 0,
        text: "hello\nbig\nworld!".to_string(),
    };
    let r = document.get_full_range();
    assert_eq!(
        r,
        Range { start: Position::new(0, 0), end: Position::new(2, 6) }
    );
}

#[test]
fn full_range_trailing_newline() {
    let document = TextDocumentItem {
        uri: "file:///d".to_string(),
        language_id: "sparql".to_string(),
        version: 0,
        text: "a\n".to_string(),
    };
    let r = document.get_full_range();
    assert_eq!(
        r,
        Range { start: Position::new(0, 0), end: Position::new(1, 0) }
    );
}
