//! Text for the process filter: case folding, substring search, and what is assumed of
//! the standard library's text functions that the monitor calls.

use vstd::prelude::*;

verus! {

/// What `str::to_lowercase` makes of a text: its Unicode lowercase form.
pub uninterp spec fn lowercased(text: Seq<char>) -> Seq<char>;

/// Assumed of `str::to_lowercase` of the standard library: the result is the lowercase
/// form of the argument, which depends on the argument's characters alone.
pub assume_specification[ str::to_lowercase ](text: &str) -> (folded: String)
    ensures
        folded@ == lowercased(text@),
;

/// Assumed of `String::push` of the standard library: it appends the character.
pub assume_specification[ String::push ](text: &mut String, ch: char)
    ensures
        final(text)@ == old(text)@.push(ch),
;

/// Assumed of `String::pop` of the standard library: it removes the last character and
/// returns it, or returns `None` and leaves an empty text as it is.
pub assume_specification[ String::pop ](text: &mut String) -> (removed: Option<char>)
    ensures
        old(text)@.len() > 0 ==> removed == Some(old(text)@.last()) && final(text)@ == old(
            text,
        )@.drop_last(),
        old(text)@.len() == 0 ==> removed.is_none() && final(text)@ == old(text)@,
;

/// Whether `needle` stands in `hay` at offset `start`.
pub open spec fn occurs_at(needle: Seq<char>, hay: Seq<char>, start: int) -> bool {
    &&& 0 <= start
    &&& start + needle.len() <= hay.len()
    &&& hay.subrange(start, start + needle.len()) == needle
}

/// Whether `needle` occurs in `hay` as a contiguous run of characters.
pub open spec fn occurs_in(needle: Seq<char>, hay: Seq<char>) -> bool {
    exists|start: int| occurs_at(needle, hay, start)
}

/// Whether `name` contains `query` once the case of both is folded away.
pub open spec fn name_matches(name: Seq<char>, query: Seq<char>) -> bool {
    occurs_in(lowercased(query), lowercased(name))
}

/// The characters of a text, in order.
pub fn characters(text: &str) -> (chars: Vec<char>)
    ensures
        chars@ == text@,
{
    broadcast use vstd::string::group_string_axioms;
    let mut chars: Vec<char> = Vec::new();
    for c in it: text.chars()
        invariant
            chars@ == it.seq().take(it.index() as int),
            it.seq() == text@,
    {
        chars.push(c);
    }
    chars
}

fn matches_at(hay: &Vec<char>, needle: &Vec<char>, start: usize) -> (found: bool)
    requires
        start + needle.len() <= hay.len(),
    ensures
        found == occurs_at(needle@, hay@, start as int),
{
    let mut offset: usize = 0;
    while offset < needle.len()
        invariant
            offset <= needle.len(),
            start + needle.len() <= hay.len(),
            forall|k: int| 0 <= k < offset ==> hay[start + k] == needle[k],
        decreases needle.len() - offset,
    {
        if hay[start + offset] != needle[offset] {
            return false;
        }
        offset += 1;
    }
    assert(hay@.subrange(start as int, start + needle.len()) =~= needle@);
    true
}

/// Searches `hay` for `needle`, character by character.
pub fn contains_chars(hay: &Vec<char>, needle: &Vec<char>) -> (found: bool)
    ensures
        found == occurs_in(needle@, hay@),
{
    if needle.len() > hay.len() {
        return false;
    }
    let last: usize = hay.len() - needle.len();
    let mut start: usize = 0;
    while start < last
        invariant
            start <= last,
            last + needle.len() == hay.len(),
            forall|earlier: int| 0 <= earlier < start ==> !occurs_at(needle@, hay@, earlier),
        decreases last - start,
    {
        if matches_at(hay, needle, start) {
            return true;
        }
        start += 1;
    }
    matches_at(hay, needle, last)
}

/// Whether the text `hay` contains the text `needle`.
pub fn contains_text(hay: &str, needle: &str) -> (found: bool)
    ensures
        found == occurs_in(needle@, hay@),
{
    let hay_chars = characters(hay);
    let needle_chars = characters(needle);
    contains_chars(&hay_chars, &needle_chars)
}

/// Whether `name` contains `query`, ignoring the case of both.
pub fn contains_ignoring_case(name: &str, query: &str) -> (found: bool)
    ensures
        found == name_matches(name@, query@),
{
    let folded_name = name.to_lowercase();
    let folded_query = query.to_lowercase();
    contains_text(folded_name.as_str(), folded_query.as_str())
}

} // verus!
