//! The name under which a file is to be stored, read from the
//! `Content-Disposition` header of the answer that carries it.
//!
//! The name is what follows the last `filename=` of the header, without any
//! double quotes; a header without `filename=` is taken whole.

use crate::text::{chars_of, text_of};
use vstd::prelude::*;

verus! {

/// The marker before the name.
pub open spec fn marker() -> Seq<char> {
    "filename="@
}

/// `pattern` stands in `text` at the place `at`.
pub open spec fn occurs_at(text: Seq<char>, pattern: Seq<char>, at: int) -> bool {
    &&& 0 <= at
    &&& at + pattern.len() <= text.len()
    &&& text.subrange(at, at + pattern.len()) == pattern
}

/// `pattern` stands in `text` at `at`, and nowhere after it.
pub open spec fn last_occurrence(text: Seq<char>, pattern: Seq<char>, at: int) -> bool {
    &&& occurs_at(text, pattern, at)
    &&& forall|later: int| at < later ==> !occurs_at(text, pattern, later)
}

/// What follows the last `pattern` in `text`; the whole text where the
/// pattern does not occur.
pub open spec fn after_last(text: Seq<char>, pattern: Seq<char>) -> Seq<char> {
    if exists|at: int| occurs_at(text, pattern, at) {
        let at = choose|at: int| last_occurrence(text, pattern, at);
        text.skip(at + pattern.len())
    } else {
        text
    }
}

/// The characters that a name keeps: all but the double quote.
pub open spec fn kept() -> spec_fn(char) -> bool {
    |c: char| c != '"'
}

/// The file name that a `Content-Disposition` header gives.
pub open spec fn file_name(header: Seq<char>) -> Seq<char> {
    after_last(header, marker()).filter(kept())
}

/// Two markers in a text never overlap, so the text after the last marker is
/// the last of the pieces into which the markers cut the text.
pub proof fn lemma_markers_apart(text: Seq<char>, a: int, b: int)
    requires
        occurs_at(text, marker(), a),
        occurs_at(text, marker(), b),
        a < b,
    ensures
        a + marker().len() <= b,
{
    reveal_strlit("filename=");
    let first = text.subrange(a, a + marker().len());
    let second = text.subrange(b, b + marker().len());
    if b < a + marker().len() {
        assert(first[b - a] == text[b]);
        assert(second[0] == text[b]);
        assert(marker()[0] == 'f');
    }
}

/// No text has two last occurrences of a pattern.
pub proof fn lemma_last_occurrence_unique(text: Seq<char>, pattern: Seq<char>, a: int, b: int)
    requires
        last_occurrence(text, pattern, a),
        last_occurrence(text, pattern, b),
    ensures
        a == b,
{
}

fn stands_at(text: &Vec<char>, pattern: &Vec<char>, at: usize) -> (found: bool)
    requires
        at + pattern.len() <= text.len(),
    ensures
        found == occurs_at(text@, pattern@, at as int),
{
    let mut k: usize = 0;
    while k < pattern.len()
        invariant
            k <= pattern.len(),
            at + pattern.len() <= text.len(),
            forall|j: int| 0 <= j < k ==> text@[at + j] == pattern@[j],
        decreases pattern.len() - k,
    {
        if text[at + k] != pattern[k] {
            proof {
                let part = text@.subrange(at as int, at + pattern.len());
                assert(part[k as int] == text@[at + k]);
            }
            return false;
        }
        k = k + 1;
    }
    assert(text@.subrange(at as int, at + pattern.len()) =~= pattern@);
    true
}

/// The place of the last `pattern` in `text`, if it occurs.
fn find_last(text: &Vec<char>, pattern: &Vec<char>) -> (found: Option<usize>)
    ensures
        match found {
            Some(at) => last_occurrence(text@, pattern@, at as int),
            None => forall|at: int| !occurs_at(text@, pattern@, at),
        },
{
    if pattern.len() > text.len() {
        return None;
    }
    let mut at: usize = text.len() - pattern.len();
    loop
        invariant
            at + pattern.len() <= text.len(),
            forall|later: int| at < later ==> !occurs_at(text@, pattern@, later),
        decreases at,
    {
        if stands_at(text, pattern, at) {
            return Some(at);
        }
        if at == 0 {
            return None;
        }
        at = at - 1;
    }
}

/// The name under which to store the file of an answer whose
/// `Content-Disposition` header is `header`.
pub fn filename_from_content_disposition(header: &str) -> (name: String)
    ensures
        name@ == file_name(header@),
{
    let text = chars_of(header);
    let pattern = chars_of("filename=");
    let found = find_last(&text, &pattern);
    let start: usize = match found {
        Some(at) => {
            proof {
                let chosen = choose|c: int| last_occurrence(text@, pattern@, c);
                lemma_last_occurrence_unique(text@, pattern@, at as int, chosen);
            }
            assert(at + pattern.len() <= text.len());
            at + pattern.len()
        },
        None => 0,
    };
    let ghost tail = text@.skip(start as int);
    assert(tail == after_last(header@, marker()));
    let mut name: Vec<char> = Vec::new();
    let mut i: usize = start;
    assert(tail.take(0).filter(kept()) =~= Seq::<char>::empty()) by {
        reveal(Seq::filter);
    }
    while i < text.len()
        invariant
            start <= i <= text.len(),
            tail == text@.skip(start as int),
            name@ == tail.take(i - start).filter(kept()),
        decreases text.len() - i,
    {
        let c = text[i];
        proof {
            reveal(Seq::filter);
            let longer = tail.take(i - start + 1);
            assert(longer.drop_last() =~= tail.take(i - start));
            assert(longer.last() == c);
        }
        if c != '"' {
            name.push(c);
        }
        i = i + 1;
    }
    assert(tail.take(text.len() - start) =~= tail);
    text_of(&name)
}

} // verus!
