//! The formatting engine: a recursive pretty-printer over the model syntax
//! tree.
//!
//! The specification functions in this module are the authoritative
//! definition of the transform: for every node kind they say, over sequences
//! of characters, what the formatted fragment is.  The executable functions
//! are verified to return exactly those sequences.

use vstd::prelude::*;

use crate::settings::{FormatSettings, FormattingOptions};
use crate::syntax::{classify, classify_kind, wf_node, NodeKind, Strategy, SyntaxNode};
use crate::text::{
    append_chars, chars_equal, chars_to_string, count_char, lit1, lit2, lit3, repeat_chars,
    repeat_seq, replace_chars, spec_replace,
};
use crate::textdocument::{spec_full_range, Range, TextDocumentItem, TextEdit};

verus! {

/// The height of a model tree: one more than the height of its tallest
/// child.  Bounds the indentation depth the engine can reach below a node.
pub open spec fn node_height(n: SyntaxNode) -> nat
    decreases n, 1int, 0int,
{
    1 + children_max_height(n, n.children@.len() as int)
}

/// The height of the tallest among the first `i` children of `n`.
pub open spec fn children_max_height(n: SyntaxNode, i: int) -> nat
    decreases n, 0int, i,
{
    if i <= 0 || i > n.children@.len() {
        0
    } else {
        let h = node_height(n.children@[i - 1]);
        let r = children_max_height(n, i - 1);
        if h > r {
            h
        } else {
            r
        }
    }
}

proof fn lemma_children_max_height(n: SyntaxNode, i: int, j: int)
    requires
        0 <= i < j <= n.children@.len(),
    ensures
        node_height(n.children@[i]) <= children_max_height(n, j),
    decreases j,
{
    if i < j - 1 {
        lemma_children_max_height(n, i, j - 1);
    }
}

/// Every child is strictly lower than its parent.
pub proof fn lemma_child_height(n: SyntaxNode, i: int)
    requires
        0 <= i < n.children@.len(),
    ensures
        node_height(n.children@[i]) < node_height(n),
{
    lemma_children_max_height(n, i, n.children@.len() as int);
}

/// The line break that begins a new line at indentation depth `ind`.
pub open spec fn line_break(base: Seq<char>, ind: nat) -> Seq<char> {
    seq!['\n'] + repeat_seq(base, ind)
}

/// The dedented line break used in front of a closing delimiter.
pub open spec fn line_break_small(base: Seq<char>, ind: nat) -> Seq<char> {
    if ind == 0 {
        seq!['\n']
    } else {
        seq!['\n'] + repeat_seq(base, (ind - 1) as nat)
    }
}

/// The sentinel that opens an encoded comment during the recursive pass.
pub open spec fn marker_open() -> char {
    '\u{2192}'
}

/// The sentinel that closes an encoded comment during the recursive pass.
pub open spec fn marker_close() -> char {
    '\u{2190}'
}

/// A comment's literal text, wrapped in the two sentinels so that the
/// structural substitutions of enclosing rules leave it untouched.
pub open spec fn encode_comment(t: Seq<char>) -> Seq<char> {
    seq![marker_open()] + t + seq![marker_close()]
}

/// Removes both sentinels from a fully formatted string; runs exactly once,
/// at the outermost node whose formatting is otherwise complete.
pub open spec fn strip_markers(s: Seq<char>) -> Seq<char> {
    spec_replace(
        spec_replace(s, seq![marker_open()], Seq::empty()),
        seq![marker_close()],
        Seq::empty(),
    )
}

/// The ASCII upper-case image of a character; everything but a lower-case
/// ASCII letter is left as it is.
pub open spec fn upper_char(c: char) -> char {
    match c {
        'a' => 'A',
        'b' => 'B',
        'c' => 'C',
        'd' => 'D',
        'e' => 'E',
        'f' => 'F',
        'g' => 'G',
        'h' => 'H',
        'i' => 'I',
        'j' => 'J',
        'k' => 'K',
        'l' => 'L',
        'm' => 'M',
        'n' => 'N',
        'o' => 'O',
        'p' => 'P',
        'q' => 'Q',
        'r' => 'R',
        's' => 'S',
        't' => 'T',
        'u' => 'U',
        'v' => 'V',
        'w' => 'W',
        'x' => 'X',
        'y' => 'Y',
        'z' => 'Z',
        _ => c,
    }
}

/// Is `c` a lower-case ASCII letter?
pub open spec fn is_ascii_lower(c: char) -> bool {
    c == 'a' || c == 'b' || c == 'c' || c == 'd' || c == 'e' || c == 'f' || c == 'g' || c == 'h'
        || c == 'i' || c == 'j' || c == 'k' || c == 'l' || c == 'm' || c == 'n' || c == 'o'
        || c == 'p' || c == 'q' || c == 'r' || c == 's' || c == 't' || c == 'u' || c == 'v'
        || c == 'w' || c == 'x' || c == 'y' || c == 'z'
}

/// The ASCII upper-case image of a whole sequence.
pub open spec fn upper_seq(s: Seq<char>) -> Seq<char> {
    Seq::new(s.len(), |i: int| upper_char(s[i]))
}

/// The number of columns a subject occupies in its source line, plus one:
/// the width of the per-column extra indent used when predicate alignment is
/// enabled.
pub open spec fn subject_width(n: SyntaxNode) -> nat {
    if n.start_col <= n.end_col {
        (n.end_col - n.start_col + 1) as nat
    } else {
        1
    }
}

/// The namespace-prefix tokens declared below `n`, in traversal order: the
/// text of every `PnameNs` child of every `PrefixDecl` node of the subtree.
pub open spec fn prefixes_in(n: SyntaxNode) -> Seq<Seq<char>>
    decreases n, 1int, 0int,
{
    if n.kind == NodeKind::PrefixDecl {
        pnames_upto(n, n.children@.len() as int)
    } else {
        prefixes_upto(n, n.children@.len() as int)
    }
}

/// The prefix tokens found below the first `i` children of `n`.
pub open spec fn prefixes_upto(n: SyntaxNode, i: int) -> Seq<Seq<char>>
    decreases n, 0int, i,
{
    if i <= 0 || i > n.children@.len() {
        Seq::empty()
    } else {
        prefixes_upto(n, i - 1) + prefixes_in(n.children@[i - 1])
    }
}

/// The texts of the `PnameNs` nodes among the first `i` children of `n`.
pub open spec fn pnames_upto(n: SyntaxNode, i: int) -> Seq<Seq<char>>
    decreases n, 0int, i,
{
    if i <= 0 || i > n.children@.len() {
        Seq::empty()
    } else {
        let rest = pnames_upto(n, i - 1);
        if n.children@[i - 1].kind == NodeKind::PnameNs {
            rest.push(n.children@[i - 1].text@)
        } else {
            rest
        }
    }
}

/// The first `i` entries of `ps` with duplicates removed, keeping the first
/// occurrence of each (a prefix declared twice does not double-count).
pub open spec fn dedup_upto(ps: Seq<Seq<char>>, i: int) -> Seq<Seq<char>>
    decreases i,
{
    if i <= 0 || i > ps.len() {
        Seq::empty()
    } else {
        let rest = dedup_upto(ps, i - 1);
        if rest.contains(ps[i - 1]) {
            rest
        } else {
            rest.push(ps[i - 1])
        }
    }
}

/// The unique prefixes among `ps`.
pub open spec fn dedup_seqs(ps: Seq<Seq<char>>) -> Seq<Seq<char>> {
    dedup_upto(ps, ps.len() as int)
}

/// The length of the longest of the first `i` entries of `ps`.
pub open spec fn max_len_upto(ps: Seq<Seq<char>>, i: int) -> nat
    decreases i,
{
    if i <= 0 || i > ps.len() {
        0
    } else {
        let h = ps[i - 1].len();
        let r = max_len_upto(ps, i - 1);
        if h > r {
            h
        } else {
            r
        }
    }
}

/// The length of the longest entry of `ps`.
pub open spec fn max_len_seqs(ps: Seq<Seq<char>>) -> nat {
    max_len_upto(ps, ps.len() as int)
}

/// The padding that follows the prefix `p` once aligned: enough spaces that
/// the next token starts one column after the longest prefix would end.
pub open spec fn pad_width(p: Seq<char>, maxlen: nat) -> nat {
    if p.len() <= maxlen {
        (maxlen - p.len() + 1) as nat
    } else {
        1
    }
}

/// The text inserted for the occurrence `" p "` of a prefix: the prefix with
/// its padding, between the same delimiters.
pub open spec fn aligned_insertion(p: Seq<char>, maxlen: nat) -> Seq<char> {
    seq![' '] + p + repeat_seq(seq![' '], pad_width(p, maxlen))
}

/// One padding substitution per unique prefix, applied from entry `i` on.
pub open spec fn apply_alignment_from(
    t: Seq<char>,
    ps: Seq<Seq<char>>,
    i: int,
    maxlen: nat,
) -> Seq<char>
    decreases ps.len() - i,
{
    if i < 0 || i >= ps.len() {
        t
    } else {
        apply_alignment_from(
            spec_replace(t, seq![' '] + ps[i] + seq![' '], aligned_insertion(ps[i], maxlen)),
            ps,
            i + 1,
            maxlen,
        )
    }
}

/// The prefix-alignment pass over an already formatted fragment: pad every
/// occurrence of each unique prefix declared below `n` so the values that
/// follow the prefixes start in one column.
pub open spec fn spec_align_prefixes(t: Seq<char>, n: SyntaxNode) -> Seq<char> {
    let unique = dedup_seqs(prefixes_in(n));
    apply_alignment_from(t, unique, 0, max_len_seqs(unique))
}

/// The formatted fragments of the first `i` children of `n`, joined by
/// `sep`, each child formatted at depth `ind` with no extra indent.
pub open spec fn fmt_children_upto(
    n: SyntaxNode,
    i: int,
    sep: Seq<char>,
    ind: nat,
    base: Seq<char>,
    s: FormatSettings,
) -> Seq<char>
    decreases n, 0int, i,
{
    if i <= 0 || i > n.children@.len() {
        Seq::empty()
    } else if i == 1 {
        fmt_node(n.children@[0], ind, base, Seq::empty(), s)
    } else {
        fmt_children_upto(n, i - 1, sep, ind, base, s) + sep + fmt_node(
            n.children@[i - 1],
            ind,
            base,
            Seq::empty(),
            s,
        )
    }
}

/// All children of `n` formatted and joined by `sep` at depth `ind`.
pub open spec fn fmt_children(
    n: SyntaxNode,
    sep: Seq<char>,
    ind: nat,
    base: Seq<char>,
    s: FormatSettings,
) -> Seq<char>
    decreases n, 1int, 0int,
{
    fmt_children_upto(n, n.children@.len() as int, sep, ind, base, s)
}

/// The formatted fragment of `n`: the definition of the whole transform,
/// one arm per formatting strategy.  `ind` is the indentation depth, `base`
/// the indent unit, `extra` the caller-supplied extra indent for wrapped
/// predicate lines.
pub open spec fn fmt_node(
    n: SyntaxNode,
    ind: nat,
    base: Seq<char>,
    extra: Seq<char>,
    s: FormatSettings,
) -> Seq<char>
    decreases n, 2int, 0int,
{
    let lb = line_break(base, ind);
    let lbs = line_break_small(base, ind);
    match classify(n.kind) {
        Strategy::TopUnit => strip_markers(fmt_children(n, lb, 0, base, s)),
        Strategy::UpdateSeq => spec_replace(
            fmt_children(n, seq![' '], 0, base, s),
            seq![';', ' '],
            seq![';', '\n'],
        ),
        Strategy::PrologueBlock => {
            let joined = fmt_children(n, lb, ind, base, s);
            let aligned = if s.align_prefixes {
                spec_align_prefixes(joined, n)
            } else {
                joined
            };
            strip_markers(aligned) + (if s.separate_prologue {
                seq!['\n']
            } else {
                Seq::<char>::empty()
            })
        },
        Strategy::ModifyRule => spec_replace(
            spec_replace(
                fmt_children(n, lb, ind, base, s),
                seq!['W', 'I', 'T', 'H', '\n'],
                seq!['W', 'I', 'T', 'H', ' '],
            ),
            seq!['W', 'H', 'E', 'R', 'E', '\n', '{'],
            seq!['W', 'H', 'E', 'R', 'E', ' ', '{'],
        ),
        Strategy::JoinSpace => fmt_children(n, seq![' '], ind, base, s),
        Strategy::AssignmentRule => spec_replace(
            spec_replace(fmt_children(n, seq![' '], ind, base, s), seq!['(', ' '], seq!['(']),
            seq![' ', ')'],
            seq![')'],
        ),
        Strategy::WhereRule => (if s.where_new_line {
            lb
        } else {
            Seq::<char>::empty()
        }) + fmt_children(n, seq![' '], ind, base, s),
        Strategy::ConstructRule => spec_replace(
            fmt_children(n, seq!['\n'], ind, base, s),
            seq!['\n', '{'],
            seq![' ', '{'],
        ),
        Strategy::QueryForm => spec_replace(
            fmt_children(n, seq![' '], ind, base, s),
            seq!['}', ' ', '\n'],
            seq!['}', '\n'],
        ),
        Strategy::CommaList => spec_replace(
            fmt_children(n, Seq::empty(), 0, base, s),
            seq![','],
            seq![',', ' '],
        ),
        Strategy::SubjectPredicate => {
            if n.children@.len() == 2 {
                let subject = n.children@[0];
                let predicate = n.children@[1];
                let pextra = if s.align_predicates {
                    repeat_seq(seq![' '], subject_width(subject))
                } else {
                    base
                };
                subject.text@ + seq![' '] + fmt_node(predicate, ind, base, pextra, s)
            } else {
                fmt_children(n, seq![' '], ind, base, s)
            }
        },
        Strategy::PredicateList => spec_replace(
            fmt_children(n, seq![' '], ind, base, s),
            seq![';', ' '],
            seq![';'] + lb + extra,
        ),
        Strategy::BracedScope => spec_replace(
            spec_replace(
                spec_replace(
                    spec_replace(
                        fmt_children(n, Seq::empty(), ind + 1, base, s),
                        seq!['{', marker_open()],
                        seq!['{'] + lb + base,
                    ),
                    seq![marker_open()],
                    base,
                ),
                seq![marker_close(), '}'],
                lb + seq!['}'],
            ),
            seq![marker_close()],
            Seq::empty(),
        ),
        Strategy::JoinEmpty => fmt_children(n, Seq::empty(), ind, base, s),
        Strategy::JoinSpaceDeeper => fmt_children(n, seq![' '], ind + 1, base, s),
        Strategy::TemplateBlock => spec_replace(
            fmt_children(n, lb, ind, base, s),
            lb + seq!['}'],
            lbs + seq!['}'],
        ),
        Strategy::ScopeBody => lb + spec_replace(
            spec_replace(
                spec_replace(fmt_children(n, lb, ind, base, s), lb + seq!['.'], seq![' ', '.']),
                seq![marker_open()],
                Seq::empty(),
            ),
            seq![marker_close()],
            Seq::empty(),
        ) + lbs,
        Strategy::ModifierRule => lb + fmt_children(n, lb, ind, base, s),
        Strategy::JoinNewline => fmt_children(n, lb, ind, base, s),
        Strategy::TriplesRule => spec_replace(
            spec_replace(
                spec_replace(
                    fmt_children(n, seq![' '], ind, base, s),
                    seq!['.', ' '],
                    seq!['.'] + lb,
                ),
                seq![marker_open()],
                Seq::empty(),
            ),
            seq![marker_close(), ' '],
            lb,
        ),
        Strategy::CommentRule => encode_comment(n.text@),
        Strategy::KeywordRule => {
            if s.capitalize_keywords {
                upper_seq(n.text@)
            } else {
                n.text@
            }
        },
        Strategy::Verbatim => n.text@,
    }
}

fn copy_vec(v: &Vec<char>) -> (r: Vec<char>)
    ensures
        r@ == v@,
{
    let mut r: Vec<char> = Vec::new();
    append_chars(&mut r, v);
    proof {
        assert(r@ =~= v@);
    }
    r
}

fn upper_char_exec(c: char) -> (r: char)
    ensures
        r == upper_char(c),
{
    match c {
        'a' => 'A',
        'b' => 'B',
        'c' => 'C',
        'd' => 'D',
        'e' => 'E',
        'f' => 'F',
        'g' => 'G',
        'h' => 'H',
        'i' => 'I',
        'j' => 'J',
        'k' => 'K',
        'l' => 'L',
        'm' => 'M',
        'n' => 'N',
        'o' => 'O',
        'p' => 'P',
        'q' => 'Q',
        'r' => 'R',
        's' => 'S',
        't' => 'T',
        'u' => 'U',
        'v' => 'V',
        'w' => 'W',
        'x' => 'X',
        'y' => 'Y',
        'z' => 'Z',
        _ => c,
    }
}

/// The terminal rule for keywords: the token's ASCII upper-case image.
pub fn upper_vec(v: &Vec<char>) -> (r: Vec<char>)
    ensures
        r@ == upper_seq(v@),
{
    let mut r: Vec<char> = Vec::new();
    let mut i: usize = 0;
    while i < v.len()
        invariant
            i <= v.len(),
            r@.len() == i,
            forall|k: int| 0 <= k < i ==> r@[k] == upper_char(v@[k]),
        decreases v.len() - i,
    {
        r.push(upper_char_exec(v[i]));
        i += 1;
    }
    proof {
        assert(r@ =~= upper_seq(v@));
    }
    r
}

fn line_break_vec(base: &Vec<char>, ind: usize) -> (r: Vec<char>)
    ensures
        r@ == line_break(base@, ind as nat),
{
    let mut r = lit1('\n');
    let rep = repeat_chars(base, ind);
    append_chars(&mut r, &rep);
    proof {
        assert(r@ =~= line_break(base@, ind as nat));
    }
    r
}

fn line_break_small_vec(base: &Vec<char>, ind: usize) -> (r: Vec<char>)
    ensures
        r@ == line_break_small(base@, ind as nat),
{
    if ind == 0 {
        let r = lit1('\n');
        proof {
            assert(r@ =~= line_break_small(base@, 0));
        }
        r
    } else {
        let r = line_break_vec(base, ind - 1);
        proof {
            assert(line_break(base@, (ind - 1) as nat) =~= line_break_small(base@, ind as nat));
        }
        r
    }
}

proof fn lemma_deep_view_vecs(v: Vec<Vec<char>>)
    ensures
        v.deep_view().len() == v@.len(),
        forall|i: int| 0 <= i < v@.len() ==> v.deep_view()[i] == v@[i]@,
{
    assert forall|i: int| 0 <= i < v@.len() implies v.deep_view()[i] == v@[i]@ by {
        assert(v@[i].deep_view() =~= v@[i]@);
    }
}

fn seqs_contain(v: &Vec<Vec<char>>, x: &Vec<char>) -> (r: bool)
    ensures
        r == v.deep_view().contains(x@),
{
    proof {
        lemma_deep_view_vecs(*v);
    }
    let mut j: usize = 0;
    while j < v.len()
        invariant
            j <= v.len(),
            v.deep_view().len() == v@.len(),
            forall|i: int| 0 <= i < v@.len() ==> v.deep_view()[i] == v@[i]@,
            forall|k: int| 0 <= k < j ==> v.deep_view()[k] != x@,
        decreases v.len() - j,
    {
        if chars_equal(&v[j], x) {
            proof {
                assert(v.deep_view()[j as int] == x@);
            }
            return true;
        }
        j += 1;
    }
    false
}

/// Collects, in traversal order, the text of every namespace-prefix token
/// declared below `n`: the tree query behind the prefix-alignment pass.
pub fn collect_prefixes(n: &SyntaxNode) -> (r: Vec<Vec<char>>)
    ensures
        r.deep_view() == prefixes_in(*n),
    decreases *n,
{
    let mut r: Vec<Vec<char>> = Vec::new();
    if n.kind == NodeKind::PrefixDecl {
        let mut i: usize = 0;
        proof {
            assert(r.deep_view() =~= pnames_upto(*n, 0));
        }
        while i < n.children.len()
            invariant
                i <= n.children.len(),
                r.deep_view() == pnames_upto(*n, i as int),
            decreases n.children.len() - i,
        {
            let ghost prev = r.deep_view();
            if n.children[i].kind == NodeKind::PnameNs {
                let t = copy_vec(&n.children[i].text);
                r.push(t);
                proof {
                    lemma_deep_view_vecs(r);
                    assert(r.deep_view() =~= prev.push(n.children@[i as int].text@));
                }
            }
            i += 1;
        }
        proof {
            assert(prefixes_in(*n) == pnames_upto(*n, n.children@.len() as int));
        }
    } else {
        let mut i: usize = 0;
        proof {
            assert(r.deep_view() =~= prefixes_upto(*n, 0));
        }
        while i < n.children.len()
            invariant
                i <= n.children.len(),
                r.deep_view() == prefixes_upto(*n, i as int),
            decreases n.children.len() - i,
        {
            let sub = collect_prefixes(&n.children[i]);
            let ghost prev = r.deep_view();
            let mut j: usize = 0;
            proof {
                lemma_deep_view_vecs(sub);
                assert(sub.deep_view().subrange(0, 0) =~= Seq::<Seq<char>>::empty());
                assert(prev + sub.deep_view().subrange(0, 0) =~= prev);
            }
            while j < sub.len()
                invariant
                    j <= sub.len(),
                    sub.deep_view() == prefixes_in(n.children@[i as int]),
                    sub.deep_view().len() == sub@.len(),
                    forall|k: int| 0 <= k < sub@.len() ==> sub.deep_view()[k] == sub@[k]@,
                    r.deep_view() == prev + sub.deep_view().subrange(0, j as int),
                decreases sub.len() - j,
            {
                let t = copy_vec(&sub[j]);
                let ghost mid = r.deep_view();
                r.push(t);
                j += 1;
                proof {
                    lemma_deep_view_vecs(r);
                    assert(r.deep_view() =~= mid.push(sub@[j - 1]@));
                    assert(mid.push(sub.deep_view()[j - 1]) =~= prev + sub.deep_view().subrange(
                        0,
                        j as int,
                    ));
                }
            }
            i += 1;
            proof {
                assert(sub.deep_view().subrange(0, sub@.len() as int) =~= sub.deep_view());
                assert(prefixes_upto(*n, i as int) == prefixes_upto(*n, i - 1) + prefixes_in(
                    n.children@[i - 1],
                ));
            }
        }
        proof {
            assert(prefixes_in(*n) == prefixes_upto(*n, n.children@.len() as int));
        }
    }
    r
}

fn dedup_prefixes(ps: &Vec<Vec<char>>) -> (r: Vec<Vec<char>>)
    ensures
        r.deep_view() == dedup_seqs(ps.deep_view()),
{
    proof {
        lemma_deep_view_vecs(*ps);
    }
    let mut r: Vec<Vec<char>> = Vec::new();
    let mut i: usize = 0;
    proof {
        assert(r.deep_view() =~= dedup_upto(ps.deep_view(), 0));
    }
    while i < ps.len()
        invariant
            i <= ps.len(),
            ps.deep_view().len() == ps@.len(),
            forall|k: int| 0 <= k < ps@.len() ==> ps.deep_view()[k] == ps@[k]@,
            r.deep_view() == dedup_upto(ps.deep_view(), i as int),
        decreases ps.len() - i,
    {
        let ghost prev = r.deep_view();
        if !seqs_contain(&r, &ps[i]) {
            let t = copy_vec(&ps[i]);
            r.push(t);
            proof {
                lemma_deep_view_vecs(r);
                assert(r.deep_view() =~= prev.push(ps@[i as int]@));
            }
        }
        i += 1;
    }
    r
}

proof fn lemma_max_len_upto_ge(ps: Seq<Seq<char>>, k: int, i: int)
    requires
        0 <= k < i <= ps.len(),
    ensures
        ps[k].len() <= max_len_upto(ps, i),
    decreases i,
{
    if k < i - 1 {
        lemma_max_len_upto_ge(ps, k, i - 1);
    }
}

proof fn lemma_max_len_bounded(ps: Seq<Seq<char>>, i: int, bound: nat)
    requires
        forall|k: int| 0 <= k < ps.len() ==> (#[trigger] ps[k]).len() < bound,
        bound >= 1,
        0 <= i <= ps.len(),
    ensures
        max_len_upto(ps, i) < bound,
    decreases i,
{
    if i > 0 {
        lemma_max_len_bounded(ps, i - 1, bound);
    }
}

proof fn lemma_dedup_entries(ps: Seq<Seq<char>>, i: int)
    requires
        0 <= i <= ps.len(),
    ensures
        forall|k: int|
            0 <= k < dedup_upto(ps, i).len() ==> ps.contains(#[trigger] dedup_upto(ps, i)[k]),
    decreases i,
{
    if i > 0 {
        lemma_dedup_entries(ps, i - 1);
        if !dedup_upto(ps, i - 1).contains(ps[i - 1]) {
            assert(dedup_upto(ps, i) =~= dedup_upto(ps, i - 1).push(ps[i - 1]));
            assert(ps.contains(ps[i - 1]));
        }
    }
}

proof fn lemma_prefixes_wf(n: SyntaxNode)
    requires
        wf_node(n),
    ensures
        forall|k: int|
            0 <= k < prefixes_in(n).len() ==> (#[trigger] prefixes_in(n)[k]).len() < usize::MAX,
    decreases n, 1int, 0int,
{
    if n.kind == NodeKind::PrefixDecl {
        lemma_pnames_wf(n, n.children@.len() as int);
        assert(prefixes_in(n) == pnames_upto(n, n.children@.len() as int));
    } else {
        lemma_prefixes_upto_wf(n, n.children@.len() as int);
        assert(prefixes_in(n) == prefixes_upto(n, n.children@.len() as int));
    }
}

proof fn lemma_pnames_wf(n: SyntaxNode, i: int)
    requires
        wf_node(n),
        0 <= i <= n.children@.len(),
    ensures
        forall|k: int|
            0 <= k < pnames_upto(n, i).len() ==> (#[trigger] pnames_upto(n, i)[k]).len()
                < usize::MAX,
    decreases n, 0int, i,
{
    if i > 0 {
        lemma_pnames_wf(n, i - 1);
        assert(wf_node(n.children@[i - 1]));
        let rest = pnames_upto(n, i - 1);
        let cur = pnames_upto(n, i);
        assert forall|k: int| 0 <= k < cur.len() implies (#[trigger] cur[k]).len()
            < usize::MAX by {
            if n.children@[i - 1].kind == NodeKind::PnameNs {
                assert(cur == rest.push(n.children@[i - 1].text@));
                if k < rest.len() {
                    assert(cur[k] == rest[k]);
                } else {
                    assert(cur[k] == n.children@[i - 1].text@);
                }
            } else {
                assert(cur == rest);
            }
        }
    }
}

proof fn lemma_prefixes_upto_wf(n: SyntaxNode, i: int)
    requires
        wf_node(n),
        0 <= i <= n.children@.len(),
    ensures
        forall|k: int|
            0 <= k < prefixes_upto(n, i).len() ==> (#[trigger] prefixes_upto(n, i)[k]).len()
                < usize::MAX,
    decreases n, 0int, i,
{
    if i > 0 {
        lemma_prefixes_upto_wf(n, i - 1);
        assert(wf_node(n.children@[i - 1]));
        lemma_prefixes_wf(n.children@[i - 1]);
        let rest = prefixes_upto(n, i - 1);
        let sub = prefixes_in(n.children@[i - 1]);
        let cur = prefixes_upto(n, i);
        assert(cur == rest + sub);
        assert forall|k: int| 0 <= k < cur.len() implies (#[trigger] cur[k]).len()
            < usize::MAX by {
            if k < rest.len() {
                assert(cur[k] == rest[k]);
            } else {
                assert(cur[k] == sub[k - rest.len()]);
            }
        }
    }
}

fn apply_alignment(t: Vec<char>, ps: &Vec<Vec<char>>, maxlen: usize) -> (r: Vec<char>)
    requires
        forall|k: int|
            0 <= k < ps.deep_view().len() ==> (#[trigger] ps.deep_view()[k]).len() <= maxlen,
        maxlen < usize::MAX,
    ensures
        r@ == apply_alignment_from(t@, ps.deep_view(), 0, maxlen as nat),
{
    proof {
        lemma_deep_view_vecs(*ps);
    }
    let ghost dv = ps.deep_view();
    let ghost t0 = t@;
    let mut cur = t;
    let mut i: usize = 0;
    let space = lit1(' ');
    while i < ps.len()
        invariant
            i <= ps.len(),
            dv == ps.deep_view(),
            dv.len() == ps@.len(),
            forall|k: int| 0 <= k < ps@.len() ==> dv[k] == ps@[k]@,
            forall|k: int| 0 <= k < dv.len() ==> (#[trigger] dv[k]).len() <= maxlen,
            maxlen < usize::MAX,
            space@ == seq![' '],
            apply_alignment_from(t0, dv, 0, maxlen as nat) == apply_alignment_from(
                cur@,
                dv,
                i as int,
                maxlen as nat,
            ),
        decreases ps.len() - i,
    {
        let p = &ps[i];
        let mut pat = lit1(' ');
        append_chars(&mut pat, p);
        pat.push(' ');
        let padding = repeat_chars(&space, maxlen - p.len() + 1);
        let mut sub = lit1(' ');
        append_chars(&mut sub, p);
        append_chars(&mut sub, &padding);
        proof {
            assert(pat@ =~= seq![' '] + dv[i as int] + seq![' ']);
            assert(pad_width(dv[i as int], maxlen as nat) == (maxlen - p@.len() + 1) as nat);
            assert(sub@ =~= aligned_insertion(dv[i as int], maxlen as nat));
            assert(pat@.len() >= 1);
        }
        let next = replace_chars(&cur, &pat, &sub);
        cur = next;
        i += 1;
    }
    cur
}

/// The prefix-alignment pass: pads every occurrence of each unique declared
/// prefix in an already formatted fragment, so the values following the
/// prefixes start in one column.
pub fn align_prefix_declarations(t: Vec<char>, n: &SyntaxNode) -> (r: Vec<char>)
    requires
        wf_node(*n),
    ensures
        r@ == spec_align_prefixes(t@, *n),
{
    let collected = collect_prefixes(n);
    let unique = dedup_prefixes(&collected);
    proof {
        lemma_deep_view_vecs(unique);
        lemma_prefixes_wf(*n);
        lemma_dedup_entries(collected.deep_view(), collected.deep_view().len() as int);
    }
    let ghost uv = unique.deep_view();
    let mut maxlen: usize = 0;
    let mut i: usize = 0;
    proof {
        assert(maxlen as nat == max_len_upto(uv, 0));
    }
    while i < unique.len()
        invariant
            i <= unique.len(),
            uv == unique.deep_view(),
            uv.len() == unique@.len(),
            forall|k: int| 0 <= k < unique@.len() ==> uv[k] == unique@[k]@,
            maxlen as nat == max_len_upto(uv, i as int),
        decreases unique.len() - i,
    {
        let l = unique[i].len();
        if l > maxlen {
            maxlen = l;
        }
        i += 1;
    }
    proof {
        assert(forall|k: int| 0 <= k < uv.len() ==> (#[trigger] uv[k]).len() < usize::MAX);
        lemma_max_len_bounded(uv, uv.len() as int, usize::MAX as nat);
        assert forall|k: int| 0 <= k < uv.len() implies (#[trigger] uv[k]).len()
            <= maxlen as nat by {
            lemma_max_len_upto_ge(uv, k, uv.len() as int);
        }
    }
    apply_alignment(t, &unique, maxlen)
}

fn pat5(a: char, b: char, c: char, d: char, e: char) -> (r: Vec<char>)
    ensures
        r@ =~= seq![a, b, c, d, e],
{
    let mut r = lit3(a, b, c);
    r.push(d);
    r.push(e);
    r
}

fn pat7(a: char, b: char, c: char, d: char, e: char, f: char, g: char) -> (r: Vec<char>)
    ensures
        r@ =~= seq![a, b, c, d, e, f, g],
{
    let mut r = pat5(a, b, c, d, e);
    r.push(f);
    r.push(g);
    r
}

/// The child joiner: formats every child of `n` at depth `child_ind` and
/// concatenates the fragments with `sep`, never reordering them.
pub fn join_children(
    n: &SyntaxNode,
    sep: &Vec<char>,
    child_ind: usize,
    base: &Vec<char>,
    s: &FormatSettings,
) -> (r: Vec<char>)
    requires
        wf_node(*n),
        child_ind + node_height(*n) <= usize::MAX + 1,
    ensures
        r@ == fmt_children(*n, sep@, child_ind as nat, base@, *s),
    decreases *n, 0int,
{
    let mut r: Vec<char> = Vec::new();
    let empty_extra: Vec<char> = Vec::new();
    let mut i: usize = 0;
    proof {
        assert(r@ =~= fmt_children_upto(*n, 0, sep@, child_ind as nat, base@, *s));
    }
    while i < n.children.len()
        invariant
            i <= n.children.len(),
            wf_node(*n),
            child_ind + node_height(*n) <= usize::MAX + 1,
            empty_extra@ == Seq::<char>::empty(),
            r@ == fmt_children_upto(*n, i as int, sep@, child_ind as nat, base@, *s),
        decreases n.children.len() - i,
    {
        proof {
            lemma_child_height(*n, i as int);
            assert(wf_node(n.children@[i as int]));
        }
        let ghost prev = r@;
        if i > 0 {
            append_chars(&mut r, sep);
        }
        let piece = format_node(&n.children[i], child_ind, base, &empty_extra, s);
        append_chars(&mut r, &piece);
        i += 1;
        proof {
            if i == 1 {
                assert(r@ =~= fmt_node(
                    n.children@[0],
                    child_ind as nat,
                    base@,
                    Seq::empty(),
                    *s,
                ));
            } else {
                assert(r@ =~= prev + sep@ + fmt_node(
                    n.children@[i - 1],
                    child_ind as nat,
                    base@,
                    Seq::empty(),
                    *s,
                ));
            }
        }
    }
    proof {
        assert(fmt_children(*n, sep@, child_ind as nat, base@, *s) == fmt_children_upto(
            *n,
            n.children@.len() as int,
            sep@,
            child_ind as nat,
            base@,
            *s,
        ));
    }
    r
}

/// The formatting dispatcher: the formatted fragment of one node, exactly
/// as [`fmt_node`] defines it.  `ind` is the indentation depth, `base` the
/// indent unit, `extra` the extra indent an enclosing subject rule asks for.
#[verifier::rlimit(100)]
pub fn format_node(
    n: &SyntaxNode,
    ind: usize,
    base: &Vec<char>,
    extra: &Vec<char>,
    s: &FormatSettings,
) -> (r: Vec<char>)
    requires
        wf_node(*n),
        ind + node_height(*n) <= usize::MAX,
    ensures
        r@ == fmt_node(*n, ind as nat, base@, extra@, *s),
    decreases *n, 1int,
{
    let lb = line_break_vec(base, ind);
    let lbs = line_break_small_vec(base, ind);
    let empty: Vec<char> = Vec::new();
    let mo = '\u{2192}';
    let mc = '\u{2190}';
    match classify_kind(n.kind) {
        Strategy::TopUnit => {
            let joined = join_children(n, &lb, 0, base, s);
            let a = replace_chars(&joined, &lit1(mo), &empty);
            replace_chars(&a, &lit1(mc), &empty)
        },
        Strategy::UpdateSeq => {
            let joined = join_children(n, &lit1(' '), 0, base, s);
            replace_chars(&joined, &lit2(';', ' '), &lit2(';', '\n'))
        },
        Strategy::PrologueBlock => {
            let joined = join_children(n, &lb, ind, base, s);
            let aligned = if s.align_prefixes {
                align_prefix_declarations(joined, n)
            } else {
                joined
            };
            let a = replace_chars(&aligned, &lit1(mo), &empty);
            let mut b = replace_chars(&a, &lit1(mc), &empty);
            if s.separate_prologue {
                let ghost stripped = b@;
                b.push('\n');
                proof {
                    assert(b@ =~= stripped + seq!['\n']);
                }
            } else {
                proof {
                    assert(b@ + Seq::<char>::empty() =~= b@);
                }
            }
            b
        },
        Strategy::ModifyRule => {
            let joined = join_children(n, &lb, ind, base, s);
            let a = replace_chars(&joined, &pat5('W', 'I', 'T', 'H', '\n'), &pat5(
                'W',
                'I',
                'T',
                'H',
                ' ',
            ));
            replace_chars(&a, &pat7('W', 'H', 'E', 'R', 'E', '\n', '{'), &pat7(
                'W',
                'H',
                'E',
                'R',
                'E',
                ' ',
                '{',
            ))
        },
        Strategy::JoinSpace => join_children(n, &lit1(' '), ind, base, s),
        Strategy::AssignmentRule => {
            let joined = join_children(n, &lit1(' '), ind, base, s);
            let a = replace_chars(&joined, &lit2('(', ' '), &lit1('('));
            replace_chars(&a, &lit2(' ', ')'), &lit1(')'))
        },
        Strategy::WhereRule => {
            let joined = join_children(n, &lit1(' '), ind, base, s);
            if s.where_new_line {
                let mut r = copy_vec(&lb);
                append_chars(&mut r, &joined);
                r
            } else {
                proof {
                    assert(Seq::<char>::empty() + joined@ =~= joined@);
                }
                joined
            }
        },
        Strategy::ConstructRule => {
            let joined = join_children(n, &lit1('\n'), ind, base, s);
            replace_chars(&joined, &lit2('\n', '{'), &lit2(' ', '{'))
        },
        Strategy::QueryForm => {
            let joined = join_children(n, &lit1(' '), ind, base, s);
            replace_chars(&joined, &lit3('}', ' ', '\n'), &lit2('}', '\n'))
        },
        Strategy::CommaList => {
            let joined = join_children(n, &empty, 0, base, s);
            replace_chars(&joined, &lit1(','), &lit2(',', ' '))
        },
        Strategy::SubjectPredicate => {
            if n.children.len() == 2 {
                proof {
                    assert(wf_node(n.children@[0]));
                    assert(wf_node(n.children@[1]));
                    lemma_child_height(*n, 1);
                }
                let subject = &n.children[0];
                let predicate = &n.children[1];
                let pextra = if s.align_predicates {
                    let w = if subject.start_col <= subject.end_col {
                        subject.end_col - subject.start_col + 1
                    } else {
                        1
                    };
                    proof {
                        assert(w as nat == subject_width(*subject));
                    }
                    repeat_chars(&lit1(' '), w)
                } else {
                    copy_vec(base)
                };
                let mut r = copy_vec(&subject.text);
                r.push(' ');
                let p = format_node(predicate, ind, base, &pextra, s);
                append_chars(&mut r, &p);
                proof {
                    assert(r@ =~= subject.text@ + seq![' '] + p@);
                }
                r
            } else {
                join_children(n, &lit1(' '), ind, base, s)
            }
        },
        Strategy::PredicateList => {
            let joined = join_children(n, &lit1(' '), ind, base, s);
            let mut sub = lit1(';');
            append_chars(&mut sub, &lb);
            append_chars(&mut sub, extra);
            proof {
                assert(sub@ =~= seq![';'] + lb@ + extra@);
            }
            replace_chars(&joined, &lit2(';', ' '), &sub)
        },
        Strategy::BracedScope => {
            proof {
                assert(node_height(*n) >= 1);
            }
            let joined = join_children(n, &empty, ind + 1, base, s);
            let mut sub1 = lit1('{');
            append_chars(&mut sub1, &lb);
            append_chars(&mut sub1, base);
            proof {
                assert(sub1@ =~= seq!['{'] + lb@ + base@);
            }
            let a = replace_chars(&joined, &lit2('{', mo), &sub1);
            let b = replace_chars(&a, &lit1(mo), base);
            let mut sub3 = copy_vec(&lb);
            sub3.push('}');
            proof {
                assert(sub3@ =~= lb@ + seq!['}']);
            }
            let c = replace_chars(&b, &lit2(mc, '}'), &sub3);
            replace_chars(&c, &lit1(mc), &empty)
        },
        Strategy::JoinEmpty => join_children(n, &empty, ind, base, s),
        Strategy::JoinSpaceDeeper => {
            proof {
                assert(node_height(*n) >= 1);
            }
            join_children(n, &lit1(' '), ind + 1, base, s)
        },
        Strategy::TemplateBlock => {
            let joined = join_children(n, &lb, ind, base, s);
            let mut pat = copy_vec(&lb);
            pat.push('}');
            let mut sub = copy_vec(&lbs);
            sub.push('}');
            proof {
                assert(pat@ =~= lb@ + seq!['}']);
                assert(sub@ =~= lbs@ + seq!['}']);
                assert(pat@.len() >= 1);
            }
            replace_chars(&joined, &pat, &sub)
        },
        Strategy::ScopeBody => {
            let joined = join_children(n, &lb, ind, base, s);
            let mut pat = copy_vec(&lb);
            pat.push('.');
            proof {
                assert(pat@ =~= lb@ + seq!['.']);
                assert(pat@.len() >= 1);
            }
            let a = replace_chars(&joined, &pat, &lit2(' ', '.'));
            let b = replace_chars(&a, &lit1(mo), &empty);
            let c = replace_chars(&b, &lit1(mc), &empty);
            let mut r = copy_vec(&lb);
            append_chars(&mut r, &c);
            append_chars(&mut r, &lbs);
            proof {
                assert(r@ =~= lb@ + c@ + lbs@);
            }
            r
        },
        Strategy::ModifierRule => {
            let joined = join_children(n, &lb, ind, base, s);
            let mut r = copy_vec(&lb);
            append_chars(&mut r, &joined);
            r
        },
        Strategy::JoinNewline => join_children(n, &lb, ind, base, s),
        Strategy::TriplesRule => {
            let joined = join_children(n, &lit1(' '), ind, base, s);
            let mut sub = lit1('.');
            append_chars(&mut sub, &lb);
            proof {
                assert(sub@ =~= seq!['.'] + lb@);
            }
            let a = replace_chars(&joined, &lit2('.', ' '), &sub);
            let b = replace_chars(&a, &lit1(mo), &empty);
            replace_chars(&b, &lit2(mc, ' '), &lb)
        },
        Strategy::CommentRule => {
            let mut r = lit1(mo);
            append_chars(&mut r, &n.text);
            r.push(mc);
            proof {
                assert(r@ =~= encode_comment(n.text@));
            }
            r
        },
        Strategy::KeywordRule => {
            if s.capitalize_keywords {
                upper_vec(&n.text)
            } else {
                copy_vec(&n.text)
            }
        },
        Strategy::Verbatim => copy_vec(&n.text),
    }
}

/// The indent unit a request formats with: `tab_size` spaces, or one tab.
pub open spec fn indent_base(s: FormatSettings) -> Seq<char> {
    if s.insert_spaces {
        repeat_seq(seq![' '], s.tab_size as nat)
    } else {
        seq!['\t']
    }
}

/// The document formatter: computes the whole-document replacement text and
/// returns a single edit spanning the full document range.
pub fn format_textdocument(
    document: &TextDocumentItem,
    tree: &SyntaxNode,
    settings: &FormatSettings,
    options: &FormattingOptions,
) -> (r: Vec<TextEdit>)
    requires
        wf_node(*tree),
        node_height(*tree) <= usize::MAX,
        document.text@.len() < u32::MAX,
    ensures
        r@.len() == 1,
        r@[0].range == spec_full_range(document.text@),
        r@[0].new_text@ == fmt_node(*tree, 0, indent_base(*settings), Seq::empty(), *settings),
{
    let range = document.get_full_range();
    let base = if settings.insert_spaces {
        repeat_chars(&lit1(' '), settings.tab_size as usize)
    } else {
        lit1('\t')
    };
    proof {
        assert(base@ == indent_base(*settings));
    }
    let empty_extra: Vec<char> = Vec::new();
    let text = format_node(tree, 0, &base, &empty_extra, settings);
    let edit = TextEdit::new(range, chars_to_string(&text));
    let mut r: Vec<TextEdit> = Vec::new();
    r.push(edit);
    r
}

/// Keyword case law: when capitalization is enabled the formatted keyword is
/// the ASCII upper-case image of the token and holds no lower-case ASCII
/// letter; when disabled the token keeps its source casing.
pub proof fn lemma_keyword_case(
    n: SyntaxNode,
    ind: nat,
    base: Seq<char>,
    extra: Seq<char>,
    s: FormatSettings,
)
    requires
        n.kind == NodeKind::Keyword,
    ensures
        s.capitalize_keywords ==> fmt_node(n, ind, base, extra, s) == upper_seq(n.text@),
        s.capitalize_keywords ==> forall|i: int|
            0 <= i < fmt_node(n, ind, base, extra, s).len() ==> !is_ascii_lower(
                #[trigger] fmt_node(n, ind, base, extra, s)[i],
            ),
        !s.capitalize_keywords ==> fmt_node(n, ind, base, extra, s) == n.text@,
{
    if s.capitalize_keywords {
        let r = fmt_node(n, ind, base, extra, s);
        assert(r == upper_seq(n.text@));
        assert forall|i: int| 0 <= i < r.len() implies !is_ascii_lower(#[trigger] r[i]) by {
            assert(r[i] == upper_char(n.text@[i]));
            assert(!is_ascii_lower(upper_char(n.text@[i])));
        }
    }
}

/// Sentinel law: the formatted fragment of a top-level unit holds no
/// sentinel character — the comment markers never leak into the result.
pub proof fn lemma_no_sentinel_leak(
    n: SyntaxNode,
    ind: nat,
    base: Seq<char>,
    extra: Seq<char>,
    s: FormatSettings,
)
    requires
        n.kind == NodeKind::Unit,
    ensures
        count_char(fmt_node(n, ind, base, extra, s), marker_open()) == 0,
        count_char(fmt_node(n, ind, base, extra, s), marker_close()) == 0,
{
    let joined = fmt_children(n, line_break(base, ind), 0, base, s);
    let first = spec_replace(joined, seq![marker_open()], Seq::empty());
    crate::text::lemma_replace_drops_char(joined, marker_open());
    crate::text::lemma_replace_drops_char(first, marker_close());
    crate::text::lemma_replace_no_new_char(first, seq![marker_close()], marker_open());
    assert(fmt_node(n, ind, base, extra, s) == strip_markers(joined));
}

/// The comment rule: a comment's formatted fragment is its literal text
/// between the two sentinels, whatever the depth and settings.
pub proof fn lemma_comment_encoding(
    n: SyntaxNode,
    ind: nat,
    base: Seq<char>,
    extra: Seq<char>,
    s: FormatSettings,
)
    requires
        n.kind == NodeKind::Comment,
    ensures
        fmt_node(n, ind, base, extra, s) == encode_comment(n.text@),
{
}

/// Comment encoding law: decoding wraps back to the comment's literal text —
/// for a comment free of the two sentinels, stripping the markers from its
/// encoded form gives back exactly the text.
pub proof fn lemma_comment_round_trip(t: Seq<char>)
    requires
        count_char(t, marker_open()) == 0,
        count_char(t, marker_close()) == 0,
    ensures
        strip_markers(encode_comment(t)) == t,
{
    let mo = marker_open();
    let mc = marker_close();
    let e = encode_comment(t);
    assert(e.len() >= 1);
    assert(e.subrange(0, 1) =~= seq![mo]);
    assert(e.skip(1) =~= t + seq![mc]);
    assert(count_char(seq![mc], mo) == 0) by {
        assert(seq![mc].len() == 1);
        assert(seq![mc][0] == mc);
        assert(seq![mc].drop_first() =~= Seq::<char>::empty());
        assert(count_char(Seq::<char>::empty(), mo) == 0);
    }
    crate::text::lemma_count_char_concat(t, seq![mc], mo);
    crate::text::lemma_replace_absent(t + seq![mc], mo);
    let first = spec_replace(e, seq![mo], Seq::empty());
    assert(first == Seq::<char>::empty() + (t + seq![mc]));
    assert(first =~= t + seq![mc]);
    crate::text::lemma_replace_split_absent(t, seq![mc], mc);
    assert(spec_replace(seq![mc], seq![mc], Seq::empty()) =~= Seq::<char>::empty()) by {
        assert(seq![mc].subrange(0, 1) =~= seq![mc]);
        assert(seq![mc].skip(1) =~= Seq::<char>::empty());
        assert(spec_replace(Seq::<char>::empty(), seq![mc], Seq::empty())
            =~= Seq::<char>::empty());
    }
    assert(spec_replace(t + seq![mc], seq![mc], Seq::empty()) =~= t);
}

/// Comment preservation through the engine: a document holding one comment
/// formats to exactly the comment's literal text — the sentinel encoding is
/// invisible end to end.
pub proof fn lemma_lone_comment_passes_through(
    n: SyntaxNode,
    c: SyntaxNode,
    ind: nat,
    base: Seq<char>,
    extra: Seq<char>,
    s: FormatSettings,
)
    requires
        n.kind == NodeKind::Unit,
        n.children@ == seq![c],
        c.kind == NodeKind::Comment,
        count_char(c.text@, marker_open()) == 0,
        count_char(c.text@, marker_close()) == 0,
    ensures
        fmt_node(n, ind, base, extra, s) == c.text@,
{
    let lb = line_break(base, ind);
    assert(n.children@.len() == 1);
    assert(n.children@[0] == c);
    assert(fmt_children(n, lb, 0, base, s) == fmt_children_upto(n, 1, lb, 0, base, s));
    assert(fmt_children_upto(n, 1, lb, 0, base, s) == fmt_node(c, 0, base, Seq::empty(), s));
    assert(fmt_node(c, 0, base, Seq::empty(), s) == encode_comment(c.text@));
    lemma_comment_round_trip(c.text@);
    assert(fmt_node(n, ind, base, extra, s) == strip_markers(encode_comment(c.text@)));
}

proof fn lemma_repeat_single_len(c: char, k: nat)
    ensures
        repeat_seq(seq![c], k).len() == k,
    decreases k,
{
    if k > 0 {
        lemma_repeat_single_len(c, (k - 1) as nat);
    }
}

/// Prefix alignment law: whatever two declared prefixes are padded in one
/// prologue, the text inserted for each spans the same number of columns, so
/// the values that follow them start in the same column.
pub proof fn lemma_alignment_uniform_width(p1: Seq<char>, p2: Seq<char>, maxlen: nat)
    requires
        p1.len() <= maxlen,
        p2.len() <= maxlen,
    ensures
        aligned_insertion(p1, maxlen).len() == aligned_insertion(p2, maxlen).len(),
        aligned_insertion(p1, maxlen).len() == maxlen + 2,
{
    lemma_repeat_single_len(' ', pad_width(p1, maxlen));
    lemma_repeat_single_len(' ', pad_width(p2, maxlen));
}

} // verus!
