//! The library's own model of a concrete syntax tree.
//!
//! The external incremental parser owns the real tree; at the boundary each
//! of its nodes is converted into a [`SyntaxNode`], which carries as plain
//! values everything the formatting engine reads: the kind tag, the exact
//! source slice of the node, the column span of the node in its source line,
//! and the ordered children.  The engine is then verified over this model.

use vstd::prelude::*;

verus! {

/// The kind tag of a syntax-tree node: one variant per grammar production
/// the formatter has a rule for, plus the three terminal classes.
///
/// `Keyword` stands for every reserved-keyword token of the grammar (the
/// parser matches them case-insensitively; their canonical spelling is the
/// ASCII upper-case of the token).  `Terminal` stands for every other token
/// that is emitted verbatim.  `Unknown` is the total fallback: a kind the
/// formatter has no rule for is emitted verbatim, never rejected.
#[derive(Clone, Copy, PartialEq, Eq, Structural, Debug)]
pub enum NodeKind {
    Unit,
    Query,
    Update,
    UpdateAction,
    Prologue,
    GroupOrUnionGraphPattern,
    MinusGraphPattern,
    Modify,
    BaseDecl,
    PrefixDecl,
    SelectClause,
    SubSelect,
    DatasetClause,
    DefaultGraphClause,
    NamedGraphClause,
    TriplesSameSubject,
    OptionalGraphPattern,
    GraphGraphPattern,
    ServiceGraphPattern,
    BinaryExpression,
    InlineData,
    ValuesClause,
    DataBlock,
    GroupClause,
    GroupCondition,
    HavingClause,
    HavingCondition,
    OrderClause,
    LimitClause,
    OffsetClause,
    ExistsFunc,
    NotExistsFunc,
    Filter,
    Bind,
    Load,
    Clear,
    Drop,
    Add,
    Move,
    Copy,
    Create,
    InsertData,
    DeleteData,
    DeleteWhere,
    GraphRef,
    GraphRefAll,
    GraphOrDefault,
    DeleteClause,
    InsertClause,
    UsingClause,
    PropertyListNotEmpty,
    Path,
    Assignment,
    WhereClause,
    ConstructQuery,
    SelectQuery,
    DescribeQuery,
    AskQuery,
    ObjectList,
    ExpressionList,
    SubstringExpression,
    RegexExpression,
    ArgList,
    TriplesSameSubjectPath,
    PropertyListPathNotEmpty,
    GroupGraphPattern,
    BrackettedExpression,
    ConstructTemplate,
    QuadData,
    OrderCondition,
    Aggregate,
    BuildInCall,
    FunctionCall,
    PathSequence,
    PathEltOrInverse,
    PathElt,
    PathPrimary,
    QuadsNotTriples,
    TriplesTemplateBlock,
    GroupGraphPatternSub,
    ConstructTriples,
    Quads,
    SolutionModifier,
    LimitOffsetClauses,
    TriplesBlock,
    TriplesTemplate,
    Comment,
    Keyword,
    /// A namespace-prefix token of a prefix declaration (kept apart from the
    /// other terminals because the prefix-alignment pass queries for it).
    PnameNs,
    Terminal,
    Unknown,
}

/// A node of the model tree.  `text` is the node's exact source slice;
/// `start_col` and `end_col` are the columns its span begins and ends at
/// (used only for predicate alignment under a subject); `children` are in
/// traversal order.
pub struct SyntaxNode {
    pub kind: NodeKind,
    pub text: Vec<char>,
    pub start_col: usize,
    pub end_col: usize,
    pub children: Vec<SyntaxNode>,
}

/// Well-formedness of a model tree: the machine bounds under which the
/// engine's arithmetic cannot overflow.  Any tree a real parser produces
/// satisfies them; a caller that receives a tree from the outside checks
/// them with [`check_wf`] before formatting.
pub open spec fn wf_node(n: SyntaxNode) -> bool
    decreases n,
{
    &&& n.end_col < usize::MAX
    &&& n.text@.len() < usize::MAX
    &&& forall|i: int| 0 <= i < n.children@.len() ==> wf_node(#[trigger] n.children@[i])
}

/// Executable well-formedness check, for callers that receive a tree from
/// the outside and must establish [`wf_node`] before formatting.
pub fn check_wf(n: &SyntaxNode) -> (r: bool)
    ensures
        r == wf_node(*n),
    decreases *n,
{
    if !(n.end_col < usize::MAX && n.text.len() < usize::MAX) {
        return false;
    }
    let mut i: usize = 0;
    while i < n.children.len()
        invariant
            i <= n.children.len(),
            n.end_col < usize::MAX,
            n.text@.len() < usize::MAX,
            forall|k: int| 0 <= k < i ==> wf_node(#[trigger] n.children@[k]),
        decreases n.children.len() - i,
    {
        if !check_wf(&n.children[i]) {
            return false;
        }
        i += 1;
    }
    true
}

/// The formatting strategy a node kind maps to: how the children are joined,
/// at which depth, and which kind-specific post-processing runs afterwards.
#[derive(Clone, Copy, PartialEq, Eq, Structural, Debug)]
pub enum Strategy {
    /// Top of the document: children joined by a line break, comment
    /// sentinels stripped from the final string.
    TopUnit,
    /// An update sequence: children joined by a space, each `; ` turned
    /// into a line break.
    UpdateSeq,
    /// A prologue-shaped block: children joined by a line break, prefixes
    /// aligned when enabled, sentinels stripped, optional blank line after.
    PrologueBlock,
    /// `Modify`: children joined by a line break, with `WITH` and `WHERE {`
    /// pulled back onto one line.
    ModifyRule,
    /// Children joined by a single space.
    JoinSpace,
    /// Children joined by a single space, spaces inside parentheses removed.
    AssignmentRule,
    /// A `WHERE` clause: space-joined, optionally pushed onto its own line.
    WhereRule,
    /// `CONSTRUCT`: children joined by a line break, `{` kept on the line.
    ConstructRule,
    /// A whole query form: space-joined, with `} ` before a line break
    /// tightened.
    QueryForm,
    /// Children joined with no separator, a space added after each comma.
    CommaList,
    /// A two-child subject/predicate node: subject text, a space, then the
    /// predicate formatted with per-column extra indent.
    SubjectPredicate,
    /// A predicate list: space-joined, each `; ` turned into a line break
    /// plus the caller's extra indent.
    PredicateList,
    /// A braced scope: children joined with no separator one level deeper,
    /// line breaks placed around the braces via the sentinel artifacts.
    BracedScope,
    /// Children joined with no separator.
    JoinEmpty,
    /// Children joined by a space one level deeper.
    JoinSpaceDeeper,
    /// A braced triples template: line-break-joined, the closing brace
    /// dedented one level.
    TemplateBlock,
    /// The body of a scope: line-break-joined between a leading break and a
    /// dedented trailing break, trailing dots pulled onto the line.
    ScopeBody,
    /// A solution modifier: a leading line break, then line-break-joined.
    ModifierRule,
    /// Children joined by a line break at the current depth.
    JoinNewline,
    /// A triples block: space-joined, each `. ` turned into a line break.
    TriplesRule,
    /// A comment token: its text wrapped in the two sentinel characters.
    CommentRule,
    /// A reserved keyword token: upper-cased or kept as written.
    KeywordRule,
    /// Any other token: emitted verbatim.
    Verbatim,
}

/// The node classifier: the total mapping from a node's kind to its
/// formatting strategy.  Unknown kinds fall back to verbatim emission.
pub open spec fn classify(k: NodeKind) -> Strategy {
    match k {
        NodeKind::Unit => Strategy::TopUnit,
        NodeKind::Update => Strategy::UpdateSeq,
        NodeKind::Prologue => Strategy::PrologueBlock,
        NodeKind::GroupOrUnionGraphPattern => Strategy::PrologueBlock,
        NodeKind::MinusGraphPattern => Strategy::PrologueBlock,
        NodeKind::Modify => Strategy::ModifyRule,
        NodeKind::BaseDecl => Strategy::JoinSpace,
        NodeKind::PrefixDecl => Strategy::JoinSpace,
        NodeKind::SelectClause => Strategy::JoinSpace,
        NodeKind::SubSelect => Strategy::JoinSpace,
        NodeKind::DatasetClause => Strategy::JoinSpace,
        NodeKind::DefaultGraphClause => Strategy::JoinSpace,
        NodeKind::NamedGraphClause => Strategy::JoinSpace,
        NodeKind::TriplesSameSubject => Strategy::JoinSpace,
        NodeKind::OptionalGraphPattern => Strategy::JoinSpace,
        NodeKind::GraphGraphPattern => Strategy::JoinSpace,
        NodeKind::ServiceGraphPattern => Strategy::JoinSpace,
        NodeKind::BinaryExpression => Strategy::JoinSpace,
        NodeKind::InlineData => Strategy::JoinSpace,
        NodeKind::ValuesClause => Strategy::JoinSpace,
        NodeKind::DataBlock => Strategy::JoinSpace,
        NodeKind::GroupClause => Strategy::JoinSpace,
        NodeKind::GroupCondition => Strategy::JoinSpace,
        NodeKind::HavingClause => Strategy::JoinSpace,
        NodeKind::HavingCondition => Strategy::JoinSpace,
        NodeKind::OrderClause => Strategy::JoinSpace,
        NodeKind::LimitClause => Strategy::JoinSpace,
        NodeKind::OffsetClause => Strategy::JoinSpace,
        NodeKind::ExistsFunc => Strategy::JoinSpace,
        NodeKind::NotExistsFunc => Strategy::JoinSpace,
        NodeKind::Filter => Strategy::JoinSpace,
        NodeKind::Bind => Strategy::JoinSpace,
        NodeKind::Load => Strategy::JoinSpace,
        NodeKind::Clear => Strategy::JoinSpace,
        NodeKind::Drop => Strategy::JoinSpace,
        NodeKind::Add => Strategy::JoinSpace,
        NodeKind::Move => Strategy::JoinSpace,
        NodeKind::Copy => Strategy::JoinSpace,
        NodeKind::Create => Strategy::JoinSpace,
        NodeKind::InsertData => Strategy::JoinSpace,
        NodeKind::DeleteData => Strategy::JoinSpace,
        NodeKind::DeleteWhere => Strategy::JoinSpace,
        NodeKind::GraphRef => Strategy::JoinSpace,
        NodeKind::GraphRefAll => Strategy::JoinSpace,
        NodeKind::GraphOrDefault => Strategy::JoinSpace,
        NodeKind::DeleteClause => Strategy::JoinSpace,
        NodeKind::InsertClause => Strategy::JoinSpace,
        NodeKind::UsingClause => Strategy::JoinSpace,
        NodeKind::PropertyListNotEmpty => Strategy::JoinSpace,
        NodeKind::Path => Strategy::JoinSpace,
        NodeKind::UpdateAction => Strategy::JoinSpace,
        NodeKind::Assignment => Strategy::AssignmentRule,
        NodeKind::WhereClause => Strategy::WhereRule,
        NodeKind::ConstructQuery => Strategy::ConstructRule,
        NodeKind::SelectQuery => Strategy::QueryForm,
        NodeKind::DescribeQuery => Strategy::QueryForm,
        NodeKind::AskQuery => Strategy::QueryForm,
        NodeKind::ObjectList => Strategy::CommaList,
        NodeKind::ExpressionList => Strategy::CommaList,
        NodeKind::SubstringExpression => Strategy::CommaList,
        NodeKind::RegexExpression => Strategy::CommaList,
        NodeKind::ArgList => Strategy::CommaList,
        NodeKind::TriplesSameSubjectPath => Strategy::SubjectPredicate,
        NodeKind::PropertyListPathNotEmpty => Strategy::PredicateList,
        NodeKind::GroupGraphPattern => Strategy::BracedScope,
        NodeKind::BrackettedExpression => Strategy::BracedScope,
        NodeKind::ConstructTemplate => Strategy::BracedScope,
        NodeKind::QuadData => Strategy::BracedScope,
        NodeKind::OrderCondition => Strategy::JoinEmpty,
        NodeKind::Aggregate => Strategy::JoinEmpty,
        NodeKind::BuildInCall => Strategy::JoinEmpty,
        NodeKind::FunctionCall => Strategy::JoinEmpty,
        NodeKind::PathSequence => Strategy::JoinEmpty,
        NodeKind::PathEltOrInverse => Strategy::JoinEmpty,
        NodeKind::PathElt => Strategy::JoinEmpty,
        NodeKind::PathPrimary => Strategy::JoinEmpty,
        NodeKind::QuadsNotTriples => Strategy::JoinSpaceDeeper,
        NodeKind::TriplesTemplateBlock => Strategy::TemplateBlock,
        NodeKind::GroupGraphPatternSub => Strategy::ScopeBody,
        NodeKind::ConstructTriples => Strategy::ScopeBody,
        NodeKind::Quads => Strategy::ScopeBody,
        NodeKind::SolutionModifier => Strategy::ModifierRule,
        NodeKind::LimitOffsetClauses => Strategy::JoinNewline,
        NodeKind::Query => Strategy::JoinNewline,
        NodeKind::TriplesBlock => Strategy::TriplesRule,
        NodeKind::TriplesTemplate => Strategy::TriplesRule,
        NodeKind::Comment => Strategy::CommentRule,
        NodeKind::Keyword => Strategy::KeywordRule,
        NodeKind::PnameNs => Strategy::Verbatim,
        NodeKind::Terminal => Strategy::Verbatim,
        NodeKind::Unknown => Strategy::Verbatim,
    }
}

/// Executable classifier, the entry of the rule table callers and tests use.
pub fn classify_kind(k: NodeKind) -> (s: Strategy)
    ensures
        s == classify(k),
{
    match k {
        NodeKind::Unit => Strategy::TopUnit,
        NodeKind::Update => Strategy::UpdateSeq,
        NodeKind::Prologue => Strategy::PrologueBlock,
        NodeKind::GroupOrUnionGraphPattern => Strategy::PrologueBlock,
        NodeKind::MinusGraphPattern => Strategy::PrologueBlock,
        NodeKind::Modify => Strategy::ModifyRule,
        NodeKind::BaseDecl => Strategy::JoinSpace,
        NodeKind::PrefixDecl => Strategy::JoinSpace,
        NodeKind::SelectClause => Strategy::JoinSpace,
        NodeKind::SubSelect => Strategy::JoinSpace,
        NodeKind::DatasetClause => Strategy::JoinSpace,
        NodeKind::DefaultGraphClause => Strategy::JoinSpace,
        NodeKind::NamedGraphClause => Strategy::JoinSpace,
        NodeKind::TriplesSameSubject => Strategy::JoinSpace,
        NodeKind::OptionalGraphPattern => Strategy::JoinSpace,
        NodeKind::GraphGraphPattern => Strategy::JoinSpace,
        NodeKind::ServiceGraphPattern => Strategy::JoinSpace,
        NodeKind::BinaryExpression => Strategy::JoinSpace,
        NodeKind::InlineData => Strategy::JoinSpace,
        NodeKind::ValuesClause => Strategy::JoinSpace,
        NodeKind::DataBlock => Strategy::JoinSpace,
        NodeKind::GroupClause => Strategy::JoinSpace,
        NodeKind::GroupCondition => Strategy::JoinSpace,
        NodeKind::HavingClause => Strategy::JoinSpace,
        NodeKind::HavingCondition => Strategy::JoinSpace,
        NodeKind::OrderClause => Strategy::JoinSpace,
        NodeKind::LimitClause => Strategy::JoinSpace,
        NodeKind::OffsetClause => Strategy::JoinSpace,
        NodeKind::ExistsFunc => Strategy::JoinSpace,
        NodeKind::NotExistsFunc => Strategy::JoinSpace,
        NodeKind::Filter => Strategy::JoinSpace,
        NodeKind::Bind => Strategy::JoinSpace,
        NodeKind::Load => Strategy::JoinSpace,
        NodeKind::Clear => Strategy::JoinSpace,
        NodeKind::Drop => Strategy::JoinSpace,
        NodeKind::Add => Strategy::JoinSpace,
        NodeKind::Move => Strategy::JoinSpace,
        NodeKind::Copy => Strategy::JoinSpace,
        NodeKind::Create => Strategy::JoinSpace,
        NodeKind::InsertData => Strategy::JoinSpace,
        NodeKind::DeleteData => Strategy::JoinSpace,
        NodeKind::DeleteWhere => Strategy::JoinSpace,
        NodeKind::GraphRef => Strategy::JoinSpace,
        NodeKind::GraphRefAll => Strategy::JoinSpace,
        NodeKind::GraphOrDefault => Strategy::JoinSpace,
        NodeKind::DeleteClause => Strategy::JoinSpace,
        NodeKind::InsertClause => Strategy::JoinSpace,
        NodeKind::UsingClause => Strategy::JoinSpace,
        NodeKind::PropertyListNotEmpty => Strategy::JoinSpace,
        NodeKind::Path => Strategy::JoinSpace,
        NodeKind::UpdateAction => Strategy::JoinSpace,
        NodeKind::Assignment => Strategy::AssignmentRule,
        NodeKind::WhereClause => Strategy::WhereRule,
        NodeKind::ConstructQuery => Strategy::ConstructRule,
        NodeKind::SelectQuery => Strategy::QueryForm,
        NodeKind::DescribeQuery => Strategy::QueryForm,
        NodeKind::AskQuery => Strategy::QueryForm,
        NodeKind::ObjectList => Strategy::CommaList,
        NodeKind::ExpressionList => Strategy::CommaList,
        NodeKind::SubstringExpression => Strategy::CommaList,
        NodeKind::RegexExpression => Strategy::CommaList,
        NodeKind::ArgList => Strategy::CommaList,
        NodeKind::TriplesSameSubjectPath => Strategy::SubjectPredicate,
        NodeKind::PropertyListPathNotEmpty => Strategy::PredicateList,
        NodeKind::GroupGraphPattern => Strategy::BracedScope,
        NodeKind::BrackettedExpression => Strategy::BracedScope,
        NodeKind::ConstructTemplate => Strategy::BracedScope,
        NodeKind::QuadData => Strategy::BracedScope,
        NodeKind::OrderCondition => Strategy::JoinEmpty,
        NodeKind::Aggregate => Strategy::JoinEmpty,
        NodeKind::BuildInCall => Strategy::JoinEmpty,
        NodeKind::FunctionCall => Strategy::JoinEmpty,
        NodeKind::PathSequence => Strategy::JoinEmpty,
        NodeKind::PathEltOrInverse => Strategy::JoinEmpty,
        NodeKind::PathElt => Strategy::JoinEmpty,
        NodeKind::PathPrimary => Strategy::JoinEmpty,
        NodeKind::QuadsNotTriples => Strategy::JoinSpaceDeeper,
        NodeKind::TriplesTemplateBlock => Strategy::TemplateBlock,
        NodeKind::GroupGraphPatternSub => Strategy::ScopeBody,
        NodeKind::ConstructTriples => Strategy::ScopeBody,
        NodeKind::Quads => Strategy::ScopeBody,
        NodeKind::SolutionModifier => Strategy::ModifierRule,
        NodeKind::LimitOffsetClauses => Strategy::JoinNewline,
        NodeKind::Query => Strategy::JoinNewline,
        NodeKind::TriplesBlock => Strategy::TriplesRule,
        NodeKind::TriplesTemplate => Strategy::TriplesRule,
        NodeKind::Comment => Strategy::CommentRule,
        NodeKind::Keyword => Strategy::KeywordRule,
        NodeKind::PnameNs => Strategy::Verbatim,
        NodeKind::Terminal => Strategy::Verbatim,
        NodeKind::Unknown => Strategy::Verbatim,
    }
}

} // verus!
