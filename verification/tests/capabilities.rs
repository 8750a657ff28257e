use sparql_ls::capabilities::{ServerCapabilities, TextDocumentSyncKind};
use sparql_ls::syntax::{classify_kind, NodeKind, Strategy};

#[test]
fn capabilities_announce_full_sync_hover_and_completion() {
    let capabilities = ServerCapabilities::new();
    assert_eq!(capabilities.text_document_sync, TextDocumentSyncKind::Full);
    assert!(capabilities.hover_provider);
    assert_eq!(
        capabilities.completion_provider.trigger_characters,
        vec!["?".to_string()]
    );
}

#[test]
fn classifier_table_entries() {
    assert_eq!(classify_kind(NodeKind::Unit), Strategy::TopUnit);
    assert_eq!(classify_kind(NodeKind::Prologue), Strategy::PrologueBlock);
    assert_eq!(classify_kind(NodeKind::SelectClause), Strategy::JoinSpace);
    assert_eq!(classify_kind(NodeKind::GroupGraphPattern), Strategy::BracedScope);
    assert_eq!(classify_kind(NodeKind::ObjectList), Strategy::CommaList);
    assert_eq!(
        classify_kind(NodeKind::TriplesSameSubjectPath),
        Strategy::SubjectPredicate
    );
    assert_eq!(classify_kind(NodeKind::Comment), Strategy::CommentRule);
    assert_eq!(classify_kind(NodeKind::Keyword), Strategy::KeywordRule);
    assert_eq!(classify_kind(NodeKind::Unknown), Strategy::Verbatim);
}
