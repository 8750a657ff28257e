//! Text documents and the positions, ranges and edits the protocol speaks
//! of.

use vstd::prelude::*;

use crate::text::{count_char, str_to_chars};

verus! {

/// A position in a document: zero-based line and character offset.
#[derive(Clone, Copy, PartialEq, Eq, Structural, Debug)]
pub struct Position {
    pub line: u32,
    pub character: u32,
}

impl Position {
    pub fn new(line: u32, character: u32) -> (p: Position)
        ensures
            p == (Position { line, character }),
    {
        Position { line, character }
    }
}

/// A half-open span between two positions.
#[derive(Clone, Copy, PartialEq, Eq, Structural, Debug)]
pub struct Range {
    pub start: Position,
    pub end: Position,
}

/// A replacement of the text inside `range` by `new_text`.
pub struct TextEdit {
    pub range: Range,
    pub new_text: String,
}

impl TextEdit {
    pub fn new(range: Range, new_text: String) -> (e: TextEdit)
        ensures
            e.range == range,
            e.new_text == new_text,
    {
        TextEdit { range, new_text }
    }
}

/// One full-document content change sent by a client.
pub struct TextDocumentContentChangeEvent {
    pub text: String,
}

/// A document the server holds: identity, language, version and text.
pub struct TextDocumentItem {
    pub uri: String,
    pub language_id: String,
    pub version: u32,
    pub text: String,
}

/// The number of characters after the last line break of `s`: the character
/// offset at which `s` ends on its final line.
pub open spec fn last_line_len(s: Seq<char>) -> nat
    decreases s.len(),
{
    if s.len() == 0 {
        0
    } else if s[s.len() - 1] == '\n' {
        0
    } else {
        1 + last_line_len(s.drop_last())
    }
}

/// The span from the start of a document of text `s` to its very end.
pub open spec fn spec_full_range(s: Seq<char>) -> Range {
    Range {
        start: Position { line: 0, character: 0 },
        end: Position {
            line: count_char(s, '\n') as u32,
            character: last_line_len(s) as u32,
        },
    }
}

proof fn lemma_count_char_push(s: Seq<char>, c: char, d: char)
    ensures
        count_char(s.push(c), d) == count_char(s, d) + (if c == d {
            1nat
        } else {
            0nat
        }),
{
    crate::text::lemma_count_char_concat(s, seq![c], d);
    assert(s.push(c) =~= s + seq![c]);
    assert(count_char(seq![c], d) == (if c == d {
        1nat
    } else {
        0nat
    })) by {
        assert(seq![c].len() == 1);
        assert(seq![c][0] == c);
        assert(seq![c].drop_first() =~= Seq::<char>::empty());
        assert(count_char(Seq::<char>::empty(), d) == 0);
    }
}

proof fn lemma_last_line_len_push(s: Seq<char>, c: char)
    ensures
        last_line_len(s.push(c)) == (if c == '\n' {
            0nat
        } else {
            1 + last_line_len(s)
        }),
{
    let t = s.push(c);
    assert(t[t.len() - 1] == c);
    if c != '\n' {
        assert(t.drop_last() =~= s);
    }
}

impl TextDocumentItem {
    /// Replaces the document's text by the last full-document change; an
    /// empty change list leaves the document as it was.
    pub fn apply_changes(&mut self, content_changes: Vec<TextDocumentContentChangeEvent>)
        ensures
            final(self).uri == old(self).uri,
            final(self).language_id == old(self).language_id,
            final(self).version == old(self).version,
            content_changes@.len() > 0 ==> final(self).text == content_changes@[0].text,
            content_changes@.len() == 0 ==> final(self).text == old(self).text,
    {
        let mut changes = content_changes;
        if changes.len() > 0 {
            let first = changes.remove(0);
            self.text = first.text;
        }
    }

    /// The document's full span: start of file to end of file.
    pub fn get_full_range(&self) -> (r: Range)
        requires
            self.text@.len() < u32::MAX,
        ensures
            r == spec_full_range(self.text@),
    {
        let chars = str_to_chars(self.text.as_str());
        let mut lines: u32 = 0;
        let mut column: u32 = 0;
        let mut i: usize = 0;
        proof {
            assert(chars@.subrange(0, 0) =~= Seq::<char>::empty());
        }
        while i < chars.len()
            invariant
                i <= chars.len(),
                chars@ == self.text@,
                chars@.len() < u32::MAX,
                lines == count_char(chars@.subrange(0, i as int), '\n'),
                column == last_line_len(chars@.subrange(0, i as int)),
                lines <= i,
                column <= i,
            decreases chars.len() - i,
        {
            let ghost pre = chars@.subrange(0, i as int);
            let c = chars[i];
            proof {
                assert(chars@.subrange(0, i + 1) =~= pre.push(c));
                lemma_count_char_push(pre, c, '\n');
                lemma_last_line_len_push(pre, c);
            }
            if c == '\n' {
                lines = lines + 1;
                column = 0;
            } else {
                column = column + 1;
            }
            i += 1;
        }
        proof {
            assert(chars@.subrange(0, chars@.len() as int) =~= chars@);
        }
        Range {
            start: Position { line: 0, character: 0 },
            end: Position { line: lines, character: column },
        }
    }
}

/// The identity of a document: its URI.
pub struct TextDocumentIdentifier {
    pub uri: String,
}

/// A document identity together with the version the client speaks about.
pub struct VersionedTextDocumentIdentifier {
    pub base: TextDocumentIdentifier,
    pub version: u32,
}

} // verus!
