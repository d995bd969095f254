//! Small operations on text that the command layer needs.

use vstd::prelude::*;
use vstd::string::*;

verus! {

/// `text` as `str::to_lowercase` returns it.
pub uninterp spec fn lowercase(text: Seq<char>) -> Seq<char>;

/// Puts `text` in lower case with `str::to_lowercase`.
///
/// Trusted: the result depends on the characters of `text` alone, by the
/// Unicode rules that the standard library follows, so it is given the
/// name `lowercase`.
#[verifier::external_body]
pub(crate) fn to_lowercase(text: &str) -> (lower: String)
    ensures
        lower@ == lowercase(text@),
{
    text.to_lowercase()
}

/// Whether two texts hold the same characters.
pub fn same_text(left: &str, right: &str) -> (same: bool)
    ensures
        same == (left@ == right@),
{
    left.to_string() == right.to_string()
}

/// The texts of a list of words.
pub open spec fn texts(words: Seq<&str>) -> Seq<Seq<char>> {
    words.map_values(|word: &str| word@)
}

/// The words in a row with one space between two neighbours.
pub open spec fn joined(words: Seq<Seq<char>>) -> Seq<char>
    decreases words.len(),
{
    if words.len() == 0 {
        Seq::empty()
    } else if words.len() == 1 {
        words[0]
    } else {
        joined(words.drop_last()) + seq![' '] + words.last()
    }
}

/// Joins the words from position `from` on with single spaces.
pub fn join_words(words: &[&str], from: usize) -> (line: String)
    requires
        from <= words@.len(),
    ensures
        line@ == joined(texts(words@).subrange(from as int, words@.len() as int)),
{
    let mut line = String::new();
    let mut at = from;
    while at < words.len()
        invariant
            from <= at <= words@.len(),
            line@ == joined(texts(words@).subrange(from as int, at as int)),
        decreases words@.len() - at,
    {
        let ghost before = texts(words@).subrange(from as int, at as int);
        let ghost after = texts(words@).subrange(from as int, at + 1);
        assert(after.drop_last() =~= before);
        assert(after.last() == words@[at as int]@);
        if at > from {
            line.append(" ");
            proof {
                reveal_strlit(" ");
                assert(" "@ =~= seq![' ']);
            }
        }
        line.append(words[at]);
        at = at + 1;
    }
    line
}

} // verus!
