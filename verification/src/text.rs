//! Character-sequence utilities the formatting engine is built from:
//! repetition, concatenation and literal (non-regular-expression) substring
//! replacement, each verified against a specification-level counterpart.

use vstd::prelude::*;

verus! {

/// `s` repeated `n` times.
pub open spec fn repeat_seq(s: Seq<char>, n: nat) -> Seq<char>
    decreases n,
{
    if n == 0 {
        Seq::empty()
    } else {
        s + repeat_seq(s, (n - 1) as nat)
    }
}

/// Left-to-right, non-overlapping replacement of every occurrence of `pat`
/// in `s` by `sub`; an empty pattern replaces nothing.
pub open spec fn spec_replace(s: Seq<char>, pat: Seq<char>, sub: Seq<char>) -> Seq<char>
    decreases s.len(),
{
    if pat.len() == 0 || s.len() < pat.len() {
        s
    } else if s.subrange(0, pat.len() as int) == pat {
        sub + spec_replace(s.skip(pat.len() as int), pat, sub)
    } else {
        seq![s[0]] + spec_replace(s.skip(1), pat, sub)
    }
}

/// How often the character `c` occurs in `s`.
pub open spec fn count_char(s: Seq<char>, c: char) -> nat
    decreases s.len(),
{
    if s.len() == 0 {
        0
    } else {
        (if s[0] == c {
            1nat
        } else {
            0nat
        }) + count_char(s.drop_first(), c)
    }
}

pub proof fn lemma_count_char_concat(a: Seq<char>, b: Seq<char>, c: char)
    ensures
        count_char(a + b, c) == count_char(a, c) + count_char(b, c),
    decreases a.len(),
{
    if a.len() == 0 {
        assert(a + b =~= b);
    } else {
        assert((a + b).drop_first() =~= a.drop_first() + b);
        lemma_count_char_concat(a.drop_first(), b, c);
    }
}

pub proof fn lemma_count_char_zero(s: Seq<char>, c: char)
    ensures
        count_char(s, c) == 0 <==> (forall|i: int| 0 <= i < s.len() ==> s[i] != c),
    decreases s.len(),
{
    if s.len() > 0 {
        lemma_count_char_zero(s.drop_first(), c);
        if count_char(s, c) == 0 {
            assert forall|i: int| 0 <= i < s.len() implies s[i] != c by {
                if i > 0 {
                    assert(s.drop_first()[i - 1] == s[i]);
                }
            }
        } else {
            if s[0] != c {
                let j = choose|j: int| 0 <= j < s.drop_first().len() && s.drop_first()[j] == c;
                assert(s[j + 1] == c);
            }
        }
    }
}

pub(crate) fn lit1(a: char) -> (r: Vec<char>)
    ensures
        r@ =~= seq![a],
{
    let mut r: Vec<char> = Vec::new();
    r.push(a);
    r
}

pub(crate) fn lit2(a: char, b: char) -> (r: Vec<char>)
    ensures
        r@ =~= seq![a, b],
{
    let mut r: Vec<char> = Vec::new();
    r.push(a);
    r.push(b);
    r
}

pub(crate) fn lit3(a: char, b: char, c: char) -> (r: Vec<char>)
    ensures
        r@ =~= seq![a, b, c],
{
    let mut r: Vec<char> = Vec::new();
    r.push(a);
    r.push(b);
    r.push(c);
    r
}

/// Appends all of `src` to `dst`.
pub fn append_chars(dst: &mut Vec<char>, src: &Vec<char>)
    ensures
        final(dst)@ == old(dst)@ + src@,
{
    let mut j: usize = 0;
    while j < src.len()
        invariant
            j <= src.len(),
            dst@ == old(dst)@ + src@.subrange(0, j as int),
        decreases src.len() - j,
    {
        dst.push(src[j]);
        j += 1;
        assert(old(dst)@ + src@.subrange(0, j - 1 as int) + seq![src@[j - 1]] =~= old(dst)@
            + src@.subrange(0, j as int));
    }
    assert(src@.subrange(0, src@.len() as int) =~= src@);
}

proof fn lemma_repeat_snoc(s: Seq<char>, n: nat)
    ensures
        repeat_seq(s, n + 1) == repeat_seq(s, n) + s,
    decreases n,
{
    if n == 0 {
        assert(repeat_seq(s, 1) =~= repeat_seq(s, 0) + s);
    } else {
        lemma_repeat_snoc(s, (n - 1) as nat);
        assert(repeat_seq(s, n + 1) =~= repeat_seq(s, n) + s);
    }
}

/// `s` repeated `n` times, as executable code.
pub fn repeat_chars(s: &Vec<char>, n: usize) -> (r: Vec<char>)
    ensures
        r@ == repeat_seq(s@, n as nat),
{
    let mut r: Vec<char> = Vec::new();
    let mut i: usize = 0;
    assert(r@ =~= repeat_seq(s@, 0));
    while i < n
        invariant
            i <= n,
            r@ == repeat_seq(s@, i as nat),
        decreases n - i,
    {
        append_chars(&mut r, s);
        proof {
            lemma_repeat_snoc(s@, i as nat);
        }
        i += 1;
    }
    r
}

/// Does `pat` occur in `s` starting at position `i`?
fn matches_at(s: &Vec<char>, pat: &Vec<char>, i: usize) -> (r: bool)
    requires
        i + pat.len() <= s.len(),
    ensures
        r == (s@.subrange(i as int, i + pat@.len()) =~= pat@),
{
    let mut j: usize = 0;
    while j < pat.len()
        invariant
            j <= pat.len(),
            i + pat.len() <= s.len(),
            forall|k: int| 0 <= k < j ==> s@[i + k] == pat@[k],
        decreases pat.len() - j,
    {
        if s[i + j] != pat[j] {
            assert(s@.subrange(i as int, i + pat@.len())[j as int] != pat@[j as int]);
            return false;
        }
        j += 1;
    }
    assert forall|k: int| 0 <= k < pat@.len() implies s@.subrange(i as int, i + pat@.len())[k]
        == pat@[k] by {}
    true
}

/// Replaces every occurrence of `pat` in `s` by `sub`, left to right and
/// without overlap, as `str::replace` does.
pub fn replace_chars(s: &Vec<char>, pat: &Vec<char>, sub: &Vec<char>) -> (r: Vec<char>)
    requires
        pat@.len() >= 1,
    ensures
        r@ == spec_replace(s@, pat@, sub@),
{
    let mut r: Vec<char> = Vec::new();
    let mut i: usize = 0;
    proof {
        assert(s@.skip(0) =~= s@);
        assert(r@ + spec_replace(s@, pat@, sub@) =~= spec_replace(s@, pat@, sub@));
    }
    while i < s.len()
        invariant
            i <= s.len(),
            pat.len() >= 1,
            spec_replace(s@, pat@, sub@) == r@ + spec_replace(s@.skip(i as int), pat@, sub@),
        decreases s.len() - i,
    {
        let ghost rest = s@.skip(i as int);
        if pat.len() <= s.len() - i && matches_at(s, pat, i) {
            append_chars(&mut r, sub);
            i += pat.len();
            proof {
                assert(rest.len() >= pat@.len());
                assert(rest.subrange(0, pat@.len() as int) =~= s@.subrange(
                    i - pat@.len(),
                    i - pat@.len() + pat@.len(),
                ));
                assert(rest.skip(pat@.len() as int) =~= s@.skip(i as int));
                assert(spec_replace(rest, pat@, sub@) == sub@ + spec_replace(
                    s@.skip(i as int),
                    pat@,
                    sub@,
                ));
            }
        } else {
            let c = s[i];
            r.push(c);
            i += 1;
            proof {
                if rest.len() >= pat@.len() {
                    assert(rest.subrange(0, pat@.len() as int) =~= s@.subrange(
                        i - 1,
                        i - 1 + pat@.len(),
                    ));
                    assert(rest.subrange(0, pat@.len() as int) != pat@);
                }
                assert(rest.skip(1) =~= s@.skip(i as int));
                assert(rest[0] == c);
                assert(spec_replace(rest, pat@, sub@) == seq![c] + spec_replace(
                    s@.skip(i as int),
                    pat@,
                    sub@,
                ));
            }
        }
    }
    proof {
        assert(s@.skip(i as int) =~= Seq::<char>::empty());
        assert(spec_replace(Seq::<char>::empty(), pat@, sub@) =~= Seq::<char>::empty());
        assert(r@ + Seq::<char>::empty() =~= r@);
    }
    r
}

/// After replacing every occurrence of the single character `c` by nothing,
/// no occurrence of `c` is left.
pub proof fn lemma_replace_drops_char(s: Seq<char>, c: char)
    ensures
        count_char(spec_replace(s, seq![c], Seq::empty()), c) == 0,
    decreases s.len(),
{
    let pat = seq![c];
    if s.len() >= 1 {
        lemma_replace_drops_char(s.skip(1), c);
        assert(s.subrange(0, 1) =~= seq![s[0]]);
        if s.subrange(0, 1) == pat {
            assert(spec_replace(s, pat, Seq::empty()) =~= spec_replace(s.skip(1), pat, Seq::empty()));
        } else {
            if s[0] == c {
                assert(s.subrange(0, 1) =~= pat);
                assert(false);
            }
            lemma_count_char_concat(seq![s[0]], spec_replace(s.skip(1), pat, Seq::empty()), c);
            assert(count_char(seq![s[0]], c) == 0) by {
                assert(seq![s[0]].len() == 1);
                assert(seq![s[0]][0] == s[0]);
                assert(seq![s[0]].drop_first() =~= Seq::<char>::empty());
                assert(count_char(Seq::<char>::empty(), c) == 0);
            }
        }
    }
}

/// Replacing a pattern by nothing never introduces a character.
pub proof fn lemma_replace_no_new_char(s: Seq<char>, pat: Seq<char>, x: char)
    ensures
        count_char(spec_replace(s, pat, Seq::empty()), x) <= count_char(s, x),
    decreases s.len(),
{
    if pat.len() == 0 || s.len() < pat.len() {
    } else if s.subrange(0, pat.len() as int) == pat {
        lemma_replace_no_new_char(s.skip(pat.len() as int), pat, x);
        assert(s =~= s.subrange(0, pat.len() as int) + s.skip(pat.len() as int));
        lemma_count_char_concat(s.subrange(0, pat.len() as int), s.skip(pat.len() as int), x);
        assert(spec_replace(s, pat, Seq::empty()) =~= spec_replace(
            s.skip(pat.len() as int),
            pat,
            Seq::empty(),
        ));
    } else {
        lemma_replace_no_new_char(s.skip(1), pat, x);
        assert(s =~= seq![s[0]] + s.skip(1));
        lemma_count_char_concat(seq![s[0]], s.skip(1), x);
        lemma_count_char_concat(seq![s[0]], spec_replace(s.skip(1), pat, Seq::empty()), x);
    }
}

/// A sequence without the character `c` is left untouched by replacing `c`.
pub proof fn lemma_replace_absent(s: Seq<char>, c: char)
    requires
        count_char(s, c) == 0,
    ensures
        spec_replace(s, seq![c], Seq::empty()) == s,
    decreases s.len(),
{
    let pat = seq![c];
    if s.len() >= 1 {
        lemma_count_char_zero(s, c);
        assert(s.subrange(0, 1) =~= seq![s[0]]);
        assert(s[0] != c);
        assert(count_char(s.skip(1), c) == 0) by {
            lemma_count_char_zero(s.skip(1), c);
        }
        lemma_replace_absent(s.skip(1), c);
        assert(seq![s[0]] + s.skip(1) =~= s);
    }
}

/// Replacing the single character `c` distributes over a concatenation whose
/// left part does not contain `c`.
pub proof fn lemma_replace_split_absent(a: Seq<char>, b: Seq<char>, c: char)
    requires
        count_char(a, c) == 0,
    ensures
        spec_replace(a + b, seq![c], Seq::empty()) == a + spec_replace(b, seq![c], Seq::empty()),
    decreases a.len(),
{
    let pat = seq![c];
    if a.len() == 0 {
        assert(a + b =~= b);
        assert(a + spec_replace(b, pat, Seq::empty()) =~= spec_replace(b, pat, Seq::empty()));
    } else {
        let s = a + b;
        lemma_count_char_zero(a, c);
        assert(a[0] != c);
        assert(s.len() >= pat.len());
        assert(s.subrange(0, 1) =~= seq![a[0]]);
        if s.subrange(0, 1) == pat {
            assert(s.subrange(0, 1)[0] == c);
            assert(false);
        }
        assert(s.skip(1) =~= a.drop_first() + b);
        assert(count_char(a.drop_first(), c) == 0) by {
            lemma_count_char_zero(a.drop_first(), c);
            assert(forall|i: int|
                0 <= i < a.drop_first().len() ==> a.drop_first()[i] == a[i + 1]);
        }
        lemma_replace_split_absent(a.drop_first(), b, c);
        assert(spec_replace(s, pat, Seq::empty()) == seq![s[0]] + spec_replace(
            s.skip(1),
            pat,
            Seq::empty(),
        ));
        assert(s[0] == a[0]);
        assert(seq![a[0]] + (a.drop_first() + spec_replace(b, pat, Seq::empty())) =~= a
            + spec_replace(b, pat, Seq::empty()));
    }
}

/// Are two character vectors equal, element for element?
pub fn chars_equal(a: &Vec<char>, b: &Vec<char>) -> (r: bool)
    ensures
        r == (a@ == b@),
{
    if a.len() != b.len() {
        return false;
    }
    let mut i: usize = 0;
    while i < a.len()
        invariant
            i <= a.len(),
            a@.len() == b@.len(),
            forall|k: int| 0 <= k < i ==> a@[k] == b@[k],
        decreases a.len() - i,
    {
        if a[i] != b[i] {
            return false;
        }
        i += 1;
    }
    proof {
        assert(a@ =~= b@);
    }
    true
}

/// Relies on std's `str::chars`: iterating a string slice yields exactly the
/// characters of its view, in order.
#[verifier::external_body]
pub fn str_to_chars(s: &str) -> (r: Vec<char>)
    ensures
        r@ == s@,
{
    s.chars().collect()
}

/// Relies on std's `FromIterator` impl for `String`: collecting characters
/// builds the string holding exactly those characters, in order.
#[verifier::external_body]
pub fn chars_to_string(v: &Vec<char>) -> (r: String)
    ensures
        r@ == v@,
{
    v.iter().collect()
}

} // verus!
