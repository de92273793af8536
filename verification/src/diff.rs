//! Telling whether an edit changed the text: the digest by which two texts
//! are compared, and the newline that an editor adds on saving.

use std::collections::hash_map::DefaultHasher;
use std::hash::Hasher;
use vstd::prelude::*;
use vstd::std_specs::hash::DefaultHasherAdditionalSpecFns;
use vstd::utf8::encode_utf8;

verus! {

/// How a session ends.
#[derive(Debug, Clone, Copy, PartialEq, Eq, Structural)]
pub enum Outcome {
    /// The edit left the text as it was: the clipboard is restored and
    /// nothing is pasted.
    Unchanged,
    /// The edit changed the text: the new text is pasted over the selection.
    Applied,
    /// Nothing was selected: no editor is opened.
    Aborted,
}

/// The digest of a text: what the standard library's default hasher gives
/// for the text's bytes followed by the byte `0xFF`. Equal texts have equal
/// digests; two different texts may share one.
pub open spec fn content_digest(text: Seq<char>) -> u64 {
    DefaultHasher::spec_finish(seq![encode_utf8(text), seq![0xFFu8]])
}

/// A text without the one newline at its end, if it ends in one. Newlines
/// anywhere else stay, also a second one at the end.
pub open spec fn strip_newline(text: Seq<char>) -> Seq<char> {
    if text.len() > 0 && text.last() == '\n' {
        text.drop_last()
    } else {
        text
    }
}

/// How a session ends whose captured and edited texts have these digests.
pub open spec fn outcome_of(captured_digest: u64, edited_digest: u64) -> Outcome {
    if captured_digest == edited_digest {
        Outcome::Unchanged
    } else {
        Outcome::Applied
    }
}

/// The digest of a text.
pub fn hash_content(content: &str) -> (digest: u64)
    ensures
        digest == content_digest(content@),
{
    let mut end: Vec<u8> = Vec::new();
    end.push(0xFF);
    let mut hasher = DefaultHasher::new();
    hasher.write(content.as_bytes());
    hasher.write(end.as_slice());
    proof {
        assert(hasher@ =~= seq![encode_utf8(content@), seq![0xFFu8]]);
    }
    hasher.finish()
}

/// A text without the one newline at its end, if it ends in one.
pub fn strip_trailing_newline(text: &str) -> (stripped: &str)
    ensures
        stripped@ == strip_newline(text@),
{
    let n = text.unicode_len();
    if n > 0 && text.get_char(n - 1) == '\n' {
        let stripped = text.substring_char(0, n - 1);
        assert(stripped@ =~= text@.drop_last());
        stripped
    } else {
        text
    }
}

/// How a session ends whose captured and edited texts have these digests:
/// `Unchanged` where they are equal, `Applied` where they differ.
pub fn outcome_for_digests(captured_digest: u64, edited_digest: u64) -> (outcome: Outcome)
    ensures
        outcome == outcome_of(captured_digest, edited_digest),
{
    if captured_digest == edited_digest {
        Outcome::Unchanged
    } else {
        Outcome::Applied
    }
}

/// How a session ends that captured one text and read back another from the
/// scratch file: the text read back loses the newline at its end, and the
/// two are compared by their digests.
pub fn compare_texts(captured: &str, read_back: &str) -> (outcome: Outcome)
    ensures
        outcome == outcome_of(content_digest(captured@), content_digest(strip_newline(read_back@))),
        strip_newline(read_back@) == captured@ ==> outcome == Outcome::Unchanged,
{
    let edited = strip_trailing_newline(read_back);
    outcome_for_digests(hash_content(captured), hash_content(edited))
}

/// The digest depends on the characters of the text alone: equal texts have
/// equal digests.
pub proof fn lemma_digest_deterministic(first: Seq<char>, second: Seq<char>)
    requires
        first == second,
    ensures
        content_digest(first) == content_digest(second),
{
}

/// Stripping takes away at most the last character, and only a newline:
/// every character before the last stays in its place.
pub proof fn lemma_strip_keeps_inner(text: Seq<char>)
    ensures
        strip_newline(text).len() == text.len() || (strip_newline(text).len() + 1 == text.len()
            && text.last() == '\n'),
        forall|i: int| 0 <= i < text.len() - 1 ==> strip_newline(text)[i] == text[i],
        strip_newline(text) == text.take(strip_newline(text).len() as int),
{
    assert(text.take(text.len() as int) =~= text);
    if text.len() > 0 {
        assert(text.drop_last() =~= text.take(text.len() - 1));
    }
}

/// Whether a text ends in two newlines.
pub open spec fn ends_in_two_newlines(text: Seq<char>) -> bool {
    text.len() >= 2 && text[text.len() - 1] == '\n' && text[text.len() - 2] == '\n'
}

/// Stripping twice gives what stripping once gives, for every text that does
/// not end in two newlines. A text that does loses one newline each time.
pub proof fn lemma_strip_idempotent(text: Seq<char>)
    ensures
        !ends_in_two_newlines(text) ==> strip_newline(strip_newline(text)) == strip_newline(text),
        ends_in_two_newlines(text) ==> strip_newline(strip_newline(text)).len() + 2 == text.len(),
{
}

/// A text that does not end in a newline is left as it is.
pub proof fn lemma_strip_without_newline(text: Seq<char>)
    requires
        text.len() == 0 || text.last() != '\n',
    ensures
        strip_newline(text) == text,
{
}

} // verus!
