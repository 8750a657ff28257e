//! The decision core of the protocol loop: which handler a request's method
//! name selects.  The transport around it — reading the wire, parsing JSON,
//! sending the answer — stays outside the library; it hands the method name
//! in and acts on the kind that comes back.

use vstd::prelude::*;

use crate::text::{chars_equal, str_to_chars};

verus! {

/// The request kinds the server knows, and `Unknown` for everything else:
/// an unknown method is answered with a warning, never with a failure.
#[derive(Clone, Copy, PartialEq, Eq, Structural, Debug)]
pub enum MethodKind {
    Initialize,
    Initialized,
    Shutdown,
    Exit,
    DidOpen,
    DidChange,
    Hover,
    Completion,
    Formatting,
    Unknown,
}

/// The mapping from a method name to the request kind it selects.
pub open spec fn spec_method_kind(m: Seq<char>) -> MethodKind {
    if m == "initialize"@ {
        MethodKind::Initialize
    } else if m == "initialized"@ {
        MethodKind::Initialized
    } else if m == "shutdown"@ {
        MethodKind::Shutdown
    } else if m == "exit"@ {
        MethodKind::Exit
    } else if m == "textDocument/didOpen"@ {
        MethodKind::DidOpen
    } else if m == "textDocument/didChange"@ {
        MethodKind::DidChange
    } else if m == "textDocument/hover"@ {
        MethodKind::Hover
    } else if m == "textDocument/completion"@ {
        MethodKind::Completion
    } else if m == "textDocument/formatting"@ {
        MethodKind::Formatting
    } else {
        MethodKind::Unknown
    }
}

/// Classifies a request's method name.
pub fn method_kind(method: &str) -> (r: MethodKind)
    ensures
        r == spec_method_kind(method@),
{
    let m = str_to_chars(method);
    if chars_equal(&m, &str_to_chars("initialize")) {
        MethodKind::Initialize
    } else if chars_equal(&m, &str_to_chars("initialized")) {
        MethodKind::Initialized
    } else if chars_equal(&m, &str_to_chars("shutdown")) {
        MethodKind::Shutdown
    } else if chars_equal(&m, &str_to_chars("exit")) {
        MethodKind::Exit
    } else if chars_equal(&m, &str_to_chars("textDocument/didOpen")) {
        MethodKind::DidOpen
    } else if chars_equal(&m, &str_to_chars("textDocument/didChange")) {
        MethodKind::DidChange
    } else if chars_equal(&m, &str_to_chars("textDocument/hover")) {
        MethodKind::Hover
    } else if chars_equal(&m, &str_to_chars("textDocument/completion")) {
        MethodKind::Completion
    } else if chars_equal(&m, &str_to_chars("textDocument/formatting")) {
        MethodKind::Formatting
    } else {
        MethodKind::Unknown
    }
}

/// The phases of a server's life.
#[derive(Clone, Copy, PartialEq, Eq, Structural, Debug)]
pub enum ServerStatus {
    Initializing,
    Running,
    ShuttingDown,
}

/// The status a server is in after handling a request of kind `m` while in
/// status `current`: the `initialized` notification starts the running
/// phase, a `shutdown` request ends it, everything else changes nothing.
pub open spec fn spec_status_after(m: MethodKind, current: ServerStatus) -> ServerStatus {
    match m {
        MethodKind::Initialized => ServerStatus::Running,
        MethodKind::Shutdown => ServerStatus::ShuttingDown,
        _ => current,
    }
}

/// Advances the server's status for a handled request.
pub fn status_after(m: MethodKind, current: ServerStatus) -> (r: ServerStatus)
    ensures
        r == spec_status_after(m, current),
{
    match m {
        MethodKind::Initialized => ServerStatus::Running,
        MethodKind::Shutdown => ServerStatus::ShuttingDown,
        _ => current,
    }
}

} // verus!
