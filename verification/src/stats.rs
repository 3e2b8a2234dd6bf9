//! The statistics collector: a single pass over a piece of text that counts
//! its lines, words, bytes and Unicode characters.
//!
//! The text is modelled as its sequence of Unicode characters (`Seq<char>`).
//! A *separator* is a space, tab, newline or carriage return; a *word* is a
//! maximal run of non-separator characters; a *line* is a maximal run of
//! characters up to and including a newline, or up to the end of the text for
//! a final unterminated segment; the byte count is the length of the UTF-8
//! encoding of the text.

use vstd::prelude::*;
use vstd::string::StrSliceExecFns;
use vstd::utf8::encode_utf8;

verus! {

/// The four counts gathered from one piece of text, all non-negative by
/// construction.
#[derive(Clone, Copy, Debug, PartialEq, Eq, Structural)]
pub struct FileStatistics {
    pub byte_count: usize,
    pub line_count: usize,
    pub word_count: usize,
    pub char_count: usize,
}

/// A character that separates words: space, tab, newline or carriage return.
/// Runs of separators collapse to a single word boundary.
pub open spec fn is_separator(c: char) -> bool {
    c == ' ' || c == '\t' || c == '\n' || c == '\r'
}

/// Position `i` begins a word: it holds a non-separator character that is
/// either at the start of the text or right after a separator.
pub open spec fn starts_word(s: Seq<char>, i: int) -> bool {
    &&& 0 <= i < s.len()
    &&& !is_separator(s[i])
    &&& (i == 0 || is_separator(s[i - 1]))
}

/// The number of words in `s`: each maximal run of non-separator characters
/// begins at exactly one position, so the words are counted by their starts.
pub open spec fn word_count(s: Seq<char>) -> nat
    decreases s.len(),
{
    if s.len() == 0 {
        0
    } else {
        word_count(s.drop_last()) + if starts_word(s, s.len() - 1) {
            1nat
        } else {
            0nat
        }
    }
}

/// The number of newline characters in `s`.
pub open spec fn newline_count(s: Seq<char>) -> nat
    decreases s.len(),
{
    if s.len() == 0 {
        0
    } else {
        newline_count(s.drop_last()) + if s.last() == '\n' {
            1nat
        } else {
            0nat
        }
    }
}

/// The number of lines in `s`: one per newline terminator, plus one for a
/// non-empty final segment that lacks its terminator.
pub open spec fn line_count(s: Seq<char>) -> nat {
    newline_count(s) + if s.len() > 0 && s.last() != '\n' {
        1nat
    } else {
        0nat
    }
}

/// The number of bytes the text occupies: the length of its UTF-8 encoding.
pub open spec fn byte_count(s: Seq<char>) -> nat {
    encode_utf8(s).len()
}

/// What the collector promises of its result: each field holds the count
/// that the text `s` defines.
pub open spec fn collected_from(r: FileStatistics, s: Seq<char>) -> bool {
    &&& r.line_count == line_count(s)
    &&& r.word_count == word_count(s)
    &&& r.byte_count == byte_count(s)
    &&& r.char_count == s.len()
}

proof fn lemma_newline_count_le(s: Seq<char>)
    ensures
        newline_count(s) <= s.len(),
    decreases s.len(),
{
    if s.len() > 0 {
        lemma_newline_count_le(s.drop_last());
    }
}

fn is_separator_char(c: char) -> (r: bool)
    ensures
        r == is_separator(c),
{
    c == ' ' || c == '\t' || c == '\n' || c == '\r'
}

/// Counts the lines, words, bytes and characters of `content` in one pass.
pub fn collect_statistics(content: &str) -> (r: FileStatistics)
    ensures
        collected_from(r, content@),
{
    let n: usize = content.unicode_len();
    let byte_total: usize = content.as_bytes().len();
    let mut newlines: usize = 0;
    let mut words: usize = 0;
    let mut prev_sep: bool = true;
    let mut i: usize = 0;
    while i < n
        invariant
            n == content@.len(),
            i <= n,
            newlines == newline_count(content@.take(i as int)),
            words == word_count(content@.take(i as int)),
            newlines <= i,
            words <= i,
            prev_sep == (i == 0 || is_separator(content@[i as int - 1])),
        decreases n - i,
    {
        let c = content.get_char(i);
        let sep = is_separator_char(c);
        proof {
            let t = content@.take(i as int + 1);
            assert(t.drop_last() =~= content@.take(i as int));
            assert(t.last() == content@[i as int]);
            assert(starts_word(t, i as int) == (!is_separator(c) && prev_sep));
        }
        if c == '\n' {
            newlines = newlines + 1;
        }
        if !sep && prev_sep {
            words = words + 1;
        }
        prev_sep = sep;
        i = i + 1;
    }
    proof {
        assert(content@.take(n as int) =~= content@);
    }
    let lines: usize = if n > 0 {
        let last = content.get_char(n - 1);
        if last != '\n' {
            proof {
                lemma_newline_count_le(content@.drop_last());
                assert(content@.last() == content@[n as int - 1]);
                assert(newlines < n);
            }
            newlines + 1
        } else {
            newlines
        }
    } else {
        0
    };
    FileStatistics { byte_count: byte_total, line_count: lines, word_count: words, char_count: n }
}

/// Law: every count the collector can report is non-negative, whatever the
/// text.
pub proof fn lemma_counts_nonnegative(s: Seq<char>)
    ensures
        line_count(s) >= 0,
        word_count(s) >= 0,
        byte_count(s) >= 0,
        s.len() >= 0,
{
}

/// Law: the counts are a function of the text alone, so collecting twice
/// from the same unmodified text yields identical statistics.
pub proof fn lemma_collection_deterministic(s: Seq<char>, r1: FileStatistics, r2: FileStatistics)
    requires
        collected_from(r1, s),
        collected_from(r2, s),
    ensures
        r1 == r2,
{
}

/// Law: any run of separators acts as a single word boundary; inserting one
/// more separator character beside an existing one never changes the word
/// count.
pub proof fn lemma_extra_separator_ignored(s: Seq<char>, i: int, c: char)
    requires
        0 <= i < s.len(),
        is_separator(s[i]),
        is_separator(c),
    ensures
        word_count(s.insert(i, c)) == word_count(s),
    decreases s.len(),
{
    let t = s.insert(i, c);
    let n = s.len() as int;
    if i == n - 1 {
        let u = s.drop_last() + seq![c];
        assert(t[n] == s[n - 1]);
        assert(!starts_word(t, n));
        assert(t.drop_last() =~= u);
        assert(u[n - 1] == c);
        assert(!starts_word(u, n - 1));
        assert(u.drop_last() =~= s.drop_last());
        assert(!starts_word(s, n - 1));
        assert(word_count(t) == word_count(u));
        assert(word_count(u) == word_count(s.drop_last()));
        assert(word_count(s) == word_count(s.drop_last()));
    } else {
        assert(t[n] == s[n - 1]);
        assert(t[n - 1] == s[n - 2]);
        assert(starts_word(t, n) == starts_word(s, n - 1));
        assert(t.drop_last() =~= s.drop_last().insert(i, c));
        assert(s.drop_last()[i] == s[i]);
        lemma_extra_separator_ignored(s.drop_last(), i, c);
        assert(word_count(t) == word_count(t.drop_last()) + if starts_word(s, n - 1) {
            1nat
        } else {
            0nat
        });
        assert(word_count(t.drop_last()) == word_count(s.drop_last()));
        assert(word_count(s) == word_count(s.drop_last()) + if starts_word(s, n - 1) {
            1nat
        } else {
            0nat
        });
    }
}

} // verus!
