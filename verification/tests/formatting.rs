use sparql_ls::format::{format_node, format_textdocument};
use sparql_ls::settings::{FormatSettings, FormattingOptions};
use sparql_ls::syntax::{check_wf, NodeKind, SyntaxNode};
use sparql_ls::textdocument::{Position, Range, TextDocumentItem};

fn kind_of(node: &tree_sitter::Node) -> NodeKind {
    match node.kind() {
        "unit" => NodeKind::Unit,
        "Query" => NodeKind::Query,
        "Update" => NodeKind::Update,
        "Update1" => NodeKind::UpdateAction,
        "Prologue" => NodeKind::Prologue,
        "GroupOrUnionGraphPattern" => NodeKind::GroupOrUnionGraphPattern,
        "MinusGraphPattern" => NodeKind::MinusGraphPattern,
        "Modify" => NodeKind::Modify,
        "BaseDecl" => NodeKind::BaseDecl,
        "PrefixDecl" => NodeKind::PrefixDecl,
        "SelectClause" => NodeKind::SelectClause,
        "SubSelect" => NodeKind::SubSelect,
        "DatasetClause" => NodeKind::DatasetClause,
        "DefaultGraphClause" => NodeKind::DefaultGraphClause,
        "NamedGraphClause" => NodeKind::NamedGraphClause,
        "TriplesSameSubject" => NodeKind::TriplesSameSubject,
        "OptionalGraphPattern" => NodeKind::OptionalGraphPattern,
        "GraphGraphPattern" => NodeKind::GraphGraphPattern,
        "ServiceGraphPattern" => NodeKind::ServiceGraphPattern,
        "binary_expression" => NodeKind::BinaryExpression,
        "InlineData" => NodeKind::InlineData,
        "ValuesClause" => NodeKind::ValuesClause,
        "DataBlock" => NodeKind::DataBlock,
        "GroupClause" => NodeKind::GroupClause,
        "GroupCondition" => NodeKind::GroupCondition,
        "HavingClause" => NodeKind::HavingClause,
        "HavingCondition" => NodeKind::HavingCondition,
        "OrderClause" => NodeKind::OrderClause,
        "LimitClause" => NodeKind::LimitClause,
        "OffsetClause" => NodeKind::OffsetClause,
        "ExistsFunc" => NodeKind::ExistsFunc,
        "NotExistsFunc" => NodeKind::NotExistsFunc,
        "Filter" => NodeKind::Filter,
        "Bind" => NodeKind::Bind,
        "Load" => NodeKind::Load,
        "Clear" => NodeKind::Clear,
        "Drop" => NodeKind::Drop,
        "Add" => NodeKind::Add,
        "Move" => NodeKind::Move,
        "Copy" => NodeKind::Copy,
        "Create" => NodeKind::Create,
        "InsertData" => NodeKind::InsertData,
        "DeleteData" => NodeKind::DeleteData,
        "DeleteWhere" => NodeKind::DeleteWhere,
        "GraphRef" => NodeKind::GraphRef,
        "GraphRefAll" => NodeKind::GraphRefAll,
        "GraphOrDefault" => NodeKind::GraphOrDefault,
        "DeleteClause" => NodeKind::DeleteClause,
        "InsertClause" => NodeKind::InsertClause,
        "UsingClause" => NodeKind::UsingClause,
        "PropertyListNotEmpty" => NodeKind::PropertyListNotEmpty,
        "Path" => NodeKind::Path,
        "assignment" => NodeKind::Assignment,
        "WhereClause" => NodeKind::WhereClause,
        "ConstructQuery" => NodeKind::ConstructQuery,
        "SelectQuery" => NodeKind::SelectQuery,
        "DescribeQuery" => NodeKind::DescribeQuery,
        "AskQuery" => NodeKind::AskQuery,
        "ObjectList" => NodeKind::ObjectList,
        "ExpressionList" => NodeKind::ExpressionList,
        "SubstringExpression" => NodeKind::SubstringExpression,
        "RegexExpression" => NodeKind::RegexExpression,
        "ArgList" => NodeKind::ArgList,
        "TriplesSameSubjectPath" => NodeKind::TriplesSameSubjectPath,
        "PropertyListPathNotEmpty" => NodeKind::PropertyListPathNotEmpty,
        "GroupGraphPattern" => NodeKind::GroupGraphPattern,
        "BrackettedExpression" => NodeKind::BrackettedExpression,
        "ConstructTemplate" => NodeKind::ConstructTemplate,
        "QuadData" => NodeKind::QuadData,
        "OrderCondition" => NodeKind::OrderCondition,
        "Aggregate" => NodeKind::Aggregate,
        "BuildInCall" => NodeKind::BuildInCall,
        "FunctionCall" => NodeKind::FunctionCall,
        "PathSequence" => NodeKind::PathSequence,
        "PathEltOrInverse" => NodeKind::PathEltOrInverse,
        "PathElt" => NodeKind::PathElt,
        "PathPrimary" => NodeKind::PathPrimary,
        "QuadsNotTriples" => NodeKind::QuadsNotTriples,
        "TriplesTemplateBlock" => NodeKind::TriplesTemplateBlock,
        "GroupGraphPatternSub" => NodeKind::GroupGraphPatternSub,
        "ConstructTriples" => NodeKind::ConstructTriples,
        "Quads" => NodeKind::Quads,
        "SolutionModifier" => NodeKind::SolutionModifier,
        "LimitOffsetClauses" => NodeKind::LimitOffsetClauses,
        "TriplesBlock" => NodeKind::TriplesBlock,
        "TriplesTemplate" => NodeKind::TriplesTemplate,
        "comment" => NodeKind::Comment,
        "PNAME_NS" => NodeKind::PnameNs,
        "IRIREF" | "VAR" | "INTEGER" | "DECIMAL" | "String" | "NIL" | "BLANK_NODE_LABEL"
        | "RdfLiteral" | "PrefixedName" | "PathMod" | "(" | ")" | "{" | "}" | "." | ","
        | ";" | "*" | "+" | "-" | "/" | "<" | ">" | "=" | ">=" | "<=" | "!=" | "||" | "&&"
        | "|" | "^" => NodeKind::Terminal,
        k => {
            let keyword_shaped = !node.is_named()
                && k.chars().all(|c| c.is_ascii_uppercase() || c == '_')
                && k.chars().any(|c| c.is_ascii_uppercase());
            if keyword_shaped {
                NodeKind::Keyword
            } else {
                NodeKind::Unknown
            }
        }
    }
}

fn convert(node: tree_sitter::Node, src: &str) -> SyntaxNode {
    let mut children = Vec::new();
    for i in 0..node.child_count() {
        children.push(convert(node.child(i).unwrap(), src));
    }
    SyntaxNode {
        kind: kind_of(&node),
        text: node.utf8_text(src.as_bytes()).unwrap().chars().collect(),
        start_col: node.start_position().column,
        end_col: node.end_position().column,
        children,
    }
}

fn parse(src: &str) -> tree_sitter::Tree {
    let mut parser = tree_sitter::Parser::new();
    parser
        .set_language(&tree_sitter_sparql::LANGUAGE.into())
        .expect("loading the SPARQL grammar failed");
    parser.parse(src, None).expect("parsing failed")
}

fn fmt(src: &str, settings: &FormatSettings) -> String {
    let tree = parse(src);
    let model = convert(tree.root_node(), src);
    assert!(check_wf(&model));
    let document = TextDocumentItem {
        uri: "file:///q.rq".to_string(),
        language_id: "sparql".to_string(),
        version: 0,
        text: src.to_string(),
    };
    let options = FormattingOptions { tab_size: 4, insert_spaces: true };
    let mut edits = format_textdocument(&document, &model, settings, &options);
    assert_eq!(edits.len(), 1);
    edits.pop().unwrap().new_text
}

fn leaf_tokens(node: tree_sitter::Node, src: &str, out: &mut Vec<String>) {
    if node.child_count() == 0 {
        if node.kind() != "comment" {
            out.push(node.utf8_text(src.as_bytes()).unwrap().to_string());
        }
    } else {
        for i in 0..node.child_count() {
            leaf_tokens(node.child(i).unwrap(), src, out);
        }
    }
}

fn token_multiset(src: &str) -> Vec<String> {
    let tree = parse(src);
    let mut out = Vec::new();
    leaf_tokens(tree.root_node(), src, &mut out);
    out.sort();
    out
}

#[test]
fn select_star_where_is_normalized() {
    let out = fmt("select * where{?s ?p ?o}", &FormatSettings::new());
    assert_eq!(out, "SELECT * WHERE {\n    ?s ?p ?o\n}");
}

#[test]
fn keywords_keep_source_casing_when_disabled() {
    let mut settings = FormatSettings::new();
    settings.capitalize_keywords = false;
    let out = fmt("select * wHeRe{?s ?p ?o}", &settings);
    assert_eq!(out, "select * wHeRe {\n    ?s ?p ?o\n}");
}

#[test]
fn prefixes_align_when_enabled() {
    let mut settings = FormatSettings::new();
    settings.align_prefixes = true;
    let out = fmt(
        "PREFIX a: <http://ex/a> PREFIX bcde: <http://ex/b> SELECT * WHERE {?s ?p ?o}",
        &settings,
    );
    assert_eq!(
        out,
        "PREFIX a:    <http://ex/a>\nPREFIX bcde: <http://ex/b>\nSELECT * WHERE {\n    ?s ?p ?o\n}"
    );
    let column_a = out.lines().next().unwrap().find('<').unwrap();
    let column_b = out.lines().nth(1).unwrap().find('<').unwrap();
    assert_eq!(column_a, column_b);
}

#[test]
fn duplicate_prefixes_do_not_double_count() {
    let mut settings = FormatSettings::new();
    settings.align_prefixes = true;
    let out = fmt(
        "PREFIX a: <http://ex/a> PREFIX a: <http://ex/a> SELECT * WHERE {?s ?p ?o}",
        &settings,
    );
    assert_eq!(
        out,
        "PREFIX a: <http://ex/a>\nPREFIX a: <http://ex/a>\nSELECT * WHERE {\n    ?s ?p ?o\n}"
    );
}

#[test]
fn comment_survives_in_group_graph_pattern() {
    let out = fmt(
        "SELECT * WHERE { # a comment\n?s ?p ?o}",
        &FormatSettings::new(),
    );
    assert_eq!(out, "SELECT * WHERE {\n    # a comment\n    ?s ?p ?o\n}");
    assert_eq!(out.matches("# a comment").count(), 1);
    assert!(!out.contains('\u{2192}'));
    assert!(!out.contains('\u{2190}'));
}

#[test]
fn unknown_kind_is_emitted_verbatim() {
    let unknown = SyntaxNode {
        kind: NodeKind::Unknown,
        text: "@strange 1.5e0 stuff".chars().collect(),
        start_col: 0,
        end_col: 20,
        children: Vec::new(),
    };
    let unit = SyntaxNode {
        kind: NodeKind::Unit,
        text: "@strange 1.5e0 stuff".chars().collect(),
        start_col: 0,
        end_col: 20,
        children: vec![unknown],
    };
    assert!(check_wf(&unit));
    let base: Vec<char> = "    ".chars().collect();
    let extra: Vec<char> = Vec::new();
    let out: String = format_node(&unit, 0, &base, &extra, &FormatSettings::new())
        .into_iter()
        .collect();
    assert_eq!(out, "@strange 1.5e0 stuff");
}

#[test]
fn formatting_is_idempotent() {
    let settings = FormatSettings::new();
    let inputs = [
        "select * where{?s ?p ?o}",
        "SELECT * WHERE { # a comment\n?s ?p ?o}",
        "PREFIX a: <http://ex/a> SELECT * WHERE {?s ?p ?o . ?s <http://ex/q> ?x}",
        "select * where {?s ?p ?o} limit 10",
        "SELECT * WHERE { ?s ?p ?o FILTER(?o > 3) }",
        "SELECT * WHERE { OPTIONAL { ?s ?p ?o } }",
        "ASK WHERE { ?s ?p ?o }",
        "INSERT DATA { <http://a> <http://b> <http://c> }",
    ];
    for src in inputs {
        let once = fmt(src, &settings);
        let twice = fmt(&once, &settings);
        assert_eq!(once, twice, "formatting {src:?} twice diverged");
    }
}

#[test]
fn tokens_are_preserved() {
    let inputs = [
        "SELECT  *  WHERE{ ?s  ?p ?o.?s2 ?p2 <http://x> }",
        "SELECT * WHERE { # note\n?s ?p ?o} LIMIT 5",
        "INSERT DATA { <http://a> <http://b> <http://c> }",
        "SELECT * WHERE { OPTIONAL { ?s ?p ?o } FILTER(?o > 3) }",
    ];
    for src in inputs {
        let out = fmt(src, &FormatSettings::new());
        assert_eq!(
            token_multiset(src),
            token_multiset(&out),
            "token multiset changed for {src:?}"
        );
    }
}

#[test]
fn edit_spans_the_whole_document() {
    let src = "select *\nwhere{?s ?p ?o}";
    let tree = parse(src);
    let model = convert(tree.root_node(), src);
    assert!(check_wf(&model));
    let document = TextDocumentItem {
        uri: "file:///q.rq".to_string(),
        language_id: "sparql".to_string(),
        version: 0,
        text: src.to_string(),
    };
    let options = FormattingOptions { tab_size: 4, insert_spaces: true };
    let edits = format_textdocument(&document, &model, &FormatSettings::new(), &options);
    assert_eq!(edits.len(), 1);
    assert_eq!(
        edits[0].range,
        Range { start: Position::new(0, 0), end: Position::new(1, 15) }
    );
}

#[test]
fn solution_modifier_moves_to_its_own_line() {
    let out = fmt("select * where {?s ?p ?o} limit 10", &FormatSettings::new());
    assert_eq!(out, "SELECT * WHERE {\n    ?s ?p ?o\n}\nLIMIT 10");
}

#[test]
fn insert_data_is_indented() {
    let out = fmt(
        "INSERT DATA { <http://a> <http://b> <http://c> }",
        &FormatSettings::new(),
    );
    assert_eq!(out, "INSERT DATA {\n    <http://a> <http://b> <http://c>\n}");
}

#[test]
fn tab_indent_when_spaces_disabled() {
    let mut settings = FormatSettings::new();
    settings.insert_spaces = false;
    let out = fmt("select * where{?s ?p ?o}", &settings);
    assert_eq!(out, "SELECT * WHERE {\n\t?s ?p ?o\n}");
}

#[test]
fn where_moves_to_new_line_when_asked() {
    let mut settings = FormatSettings::new();
    settings.where_new_line = true;
    let out = fmt("select * where{?s ?p ?o}", &settings);
    assert_eq!(out, "SELECT * \nWHERE {\n    ?s ?p ?o\n}");
}

#[test]
fn predicate_lists_break_and_align_under_subject() {
    let mut settings = FormatSettings::new();
    settings.align_predicates = true;
    let out = fmt(
        "select * where{?subject ?p ?o; ?q ?r}",
        &settings,
    );
    assert_eq!(
        out,
        "SELECT * WHERE {\n    ?subject ?p ?o ;\n             ?q ?r\n}"
    );
}
