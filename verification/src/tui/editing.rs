//! Cursor-based editing of the form's texts, by characters.
use vstd::prelude::*;
use crate::text::{
    char_utf8_len, chars_of, is_char_start, lemma_utf8_concat, lemma_utf8_prefix_len,
    string_insert, string_remove, utf8_len,
};

verus! {

/// The position of the `cursor`-th character, or the end of the text.
pub open spec fn char_position(len: int, cursor: int) -> int {
    if cursor < len { cursor } else { len }
}

/// The text with `ch` inserted before the `cursor`-th character (at the end
/// when the cursor lies beyond it).
pub open spec fn inserted(s: Seq<char>, cursor: int, ch: char) -> Seq<char> {
    let k = char_position(s.len() as int, cursor);
    s.take(k) + seq![ch] + s.skip(k)
}

/// The text without its `cursor`-th character (unchanged when there is none).
pub open spec fn deleted(s: Seq<char>, cursor: int) -> Seq<char> {
    if 0 <= cursor < s.len() { s.take(cursor) + s.skip(cursor + 1) } else { s }
}

/// Typing a character at a cursor within the text and then deleting the
/// character at that cursor gives the text back.
pub proof fn lemma_delete_undoes_insert(s: Seq<char>, cursor: int, ch: char)
    requires
        0 <= cursor <= s.len(),
    ensures
        deleted(inserted(s, cursor, ch), cursor) == s,
        inserted(s, cursor, ch).len() == s.len() + 1,
{
    let t = inserted(s, cursor, ch);
    assert(t.take(cursor) =~= s.take(cursor));
    assert(t.skip(cursor + 1) =~= s.skip(cursor));
    assert(s.take(cursor) + s.skip(cursor) =~= s);
}

/// Deleting a character and typing it again at the same cursor gives the
/// text back.
pub proof fn lemma_insert_undoes_delete(s: Seq<char>, cursor: int)
    requires
        0 <= cursor < s.len(),
    ensures
        inserted(deleted(s, cursor), cursor, s[cursor]) == s,
{
    let t = deleted(s, cursor);
    assert(t.take(cursor) =~= s.take(cursor));
    assert(t.skip(cursor) =~= s.skip(cursor + 1));
    assert(s.take(cursor) + seq![s[cursor]] + s.skip(cursor + 1) =~= s);
}

/// The byte offset of the `cursor`-th character of `value`, or the text's
/// byte length when the cursor lies beyond its characters.
pub fn char_to_byte_index(value: &str, cursor: usize) -> (r: usize)
    ensures
        r == utf8_len(value@.take(char_position(value@.len() as int, cursor as int))),
        is_char_start(value@, r as int, char_position(value@.len() as int, cursor as int)),
{
    let total = value.as_bytes().len();
    let cs = chars_of(value);
    let mut idx: usize = 0;
    let mut i: usize = 0;
    proof {
        assert(value@.take(0) =~= Seq::<char>::empty());
        assert(vstd::utf8::encode_utf8(Seq::<char>::empty()) =~= Seq::<u8>::empty());
        assert(cs@.take(cs@.len() as int) =~= cs@);
    }
    while i < cs.len() && i < cursor
        invariant
            cs@ == value@,
            total == utf8_len(value@),
            i <= cs.len(),
            i <= cursor,
            idx == utf8_len(value@.take(i as int)),
        decreases cs.len() - i,
    {
        proof {
            lemma_utf8_prefix_len(value@, i as int);
            assert(value@.take(i + 1) =~= value@.take(i as int) + seq![value@[i as int]]);
            lemma_utf8_concat(value@.take(i as int), seq![value@[i as int]]);
        }
        idx = idx + char_utf8_len(cs[i]);
        i = i + 1;
    }
    proof {
        if i == cs.len() {
            assert(value@.take(i as int) =~= value@);
        }
    }
    idx
}

/// Inserts `ch` before the `cursor`-th character.
pub fn insert_char(value: &mut String, cursor: usize, ch: char)
    ensures
        final(value)@ == inserted(old(value)@, cursor as int, ch),
{
    let idx = char_to_byte_index(value.as_str(), cursor);
    string_insert(value, idx, ch);
}

/// Removes the `cursor`-th character, if there is one.
pub fn delete_char(value: &mut String, cursor: usize)
    ensures
        final(value)@ == deleted(old(value)@, cursor as int),
{
    let idx = char_to_byte_index(value.as_str(), cursor);
    let len = value.as_str().as_bytes().len();
    assert(len == utf8_len(old(value)@));
    proof {
        let n = old(value)@.len() as int;
        if (cursor as int) < n {
            lemma_utf8_prefix_len(old(value)@, cursor as int);
        } else {
            assert(old(value)@.take(n) =~= old(value)@);
        }
    }
    if idx < len {
        assert((cursor as int) < old(value)@.len());
        assert(is_char_start(old(value)@, idx as int, cursor as int));
        string_remove(value, idx);
        assert(value@ == old(value)@.take(cursor as int) + old(value)@.skip(cursor + 1));
    } else {
        assert(cursor as int >= old(value)@.len());
    }
}

/// The number of characters of a text.
pub fn char_count(value: &str) -> (r: usize)
    ensures
        r == value@.len(),
{
    chars_of(value).len()
}

} // verus!
