use sparql_ls::dispatch::{method_kind, status_after, MethodKind, ServerStatus};

#[test]
fn known_methods_are_classified() {
    assert_eq!(method_kind("initialize"), MethodKind::Initialize);
    assert_eq!(method_kind("initialized"), MethodKind::Initialized);
    assert_eq!(method_kind("shutdown"), MethodKind::Shutdown);
    assert_eq!(method_kind("exit"), MethodKind::Exit);
    assert_eq!(method_kind("textDocument/didOpen"), MethodKind::DidOpen);
    assert_eq!(method_kind("textDocument/didChange"), MethodKind::DidChange);
    assert_eq!(method_kind("textDocument/hover"), MethodKind::Hover);
    assert_eq!(method_kind("textDocument/completion"), MethodKind::Completion);
    assert_eq!(method_kind("textDocument/formatting"), MethodKind::Formatting);
}

#[test]
fn unknown_methods_fall_through() {
    assert_eq!(method_kind("textDocument/rename"), MethodKind::Unknown);
    assert_eq!(method_kind(""), MethodKind::Unknown);
    assert_eq!(method_kind("Initialize"), MethodKind::Unknown);
}

#[test]
fn status_transitions() {
    assert_eq!(
        status_after(MethodKind::Initialized, ServerStatus::Initializing),
        ServerStatus::Running
    );
    assert_eq!(
        status_after(MethodKind::Shutdown, ServerStatus::Running),
        ServerStatus::ShuttingDown
    );
    assert_eq!(
        status_after(MethodKind::Hover, ServerStatus::Running),
        ServerStatus::Running
    );
}
