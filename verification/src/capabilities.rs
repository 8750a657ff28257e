//! What the server tells a client it can do.

use vstd::prelude::*;

verus! {

/// How the server wants document changes delivered.
#[derive(Clone, Copy, PartialEq, Eq, Structural, Debug)]
pub enum TextDocumentSyncKind {
    /// Documents are never synchronized.
    NoSync,
    /// Every change carries the whole document.
    Full,
    /// Changes are sent as increments.
    Incremental,
}

/// The completion options the server announces.
pub struct CompletionOptions {
    pub trigger_characters: Vec<String>,
}

/// The capabilities the server announces during the handshake.
pub struct ServerCapabilities {
    pub text_document_sync: TextDocumentSyncKind,
    pub hover_provider: bool,
    pub completion_provider: CompletionOptions,
}

impl ServerCapabilities {
    /// The capabilities this server has: full document sync, hover, and
    /// completion triggered by `?`.
    pub fn new() -> (r: ServerCapabilities)
        ensures
            r.text_document_sync == TextDocumentSyncKind::Full,
            r.hover_provider == true,
            r.completion_provider.trigger_characters@.len() == 1,
            r.completion_provider.trigger_characters@[0]@ == "?"@,
    {
        let mut trigger_characters: Vec<String> = Vec::new();
        trigger_characters.push("?".to_owned());
        ServerCapabilities {
            text_document_sync: TextDocumentSyncKind::Full,
            hover_provider: true,
            completion_provider: CompletionOptions { trigger_characters },
        }
    }
}

} // verus!
