//! Text: comparison, prefixes, and the textual form of identities.

use vstd::prelude::*;
use vstd::string::StrSliceExecFns;

verus! {

/// The bits of the UUID that `uuid::Uuid::parse_str` reads from a text, where it reads one.
pub uninterp spec fn uuid_value(text: Seq<char>) -> Option<u128>;

/// The hyphenated lower-case text of the UUID with the given bits.
pub uninterp spec fn uuid_text(bits: u128) -> Seq<char>;

/// `uuid::Uuid::parse_str`: the result is a function of the text alone.
#[verifier::external_body]
pub(crate) fn parse_uuid(text: &str) -> (bits: Option<u128>)
    ensures
        bits == uuid_value(text@),
{
    uuid::Uuid::parse_str(text).ok().map(|uuid| uuid.as_u128())
}

/// `uuid::Uuid::from_u128` and its `Display`: the text is a function of the bits alone, has the
/// hyphenated length, and parsing it gives the bits back.
#[verifier::external_body]
pub(crate) fn format_uuid(bits: u128) -> (text: String)
    ensures
        text@ == uuid_text(bits),
        text@.len() == 36,
        uuid_value(text@) == Some(bits),
{
    uuid::Uuid::from_u128(bits).to_string()
}

/// Whether the characters of `text` from `start` on begin with `part`.
fn stands_at(text: &str, part: &str, start: usize) -> (result: bool)
    requires
        start + part@.len() <= text@.len() <= usize::MAX,
    ensures
        result == (text@.subrange(start as int, start + part@.len()) == part@),
{
    let length: usize = part.unicode_len();
    let mut index: usize = 0;
    while index < length
        invariant
            index <= length,
            length == part@.len(),
            start + length <= text@.len() <= usize::MAX,
            forall|i: int| 0 <= i < index ==> text@[start + i] == part@[i],
        decreases length - index,
    {
        if text.get_char(start + index) != part.get_char(index) {
            let ghost found = text@.subrange(start as int, start + length);
            assert(found[index as int] != part@[index as int]);
            return false;
        }
        index = index + 1;
    }
    assert(text@.subrange(start as int, start + length) =~= part@);
    true
}

/// Whether a text begins with another.
pub(crate) fn starts_with(text: &str, prefix: &str) -> (result: bool)
    ensures
        result == prefix@.is_prefix_of(text@),
{
    prefix.unicode_len() <= text.unicode_len() && stands_at(text, prefix, 0)
}

/// Whether a text ends with another.
pub(crate) fn ends_with(text: &str, suffix: &str) -> (result: bool)
    ensures
        result == suffix@.is_suffix_of(text@),
{
    let length: usize = text.unicode_len();
    let tail: usize = suffix.unicode_len();
    tail <= length && stands_at(text, suffix, length - tail)
}

/// Whether `part` occurs in `text`.
pub open spec fn occurs_in(part: Seq<char>, text: Seq<char>) -> bool {
    exists|start: int|
        0 <= start <= text.len() - part.len() && #[trigger] text.subrange(
            start,
            start + part.len(),
        ) == part
}

/// Whether a text holds another somewhere.
pub(crate) fn contains(text: &str, part: &str) -> (result: bool)
    ensures
        result == occurs_in(part@, text@),
{
    let length: usize = text.unicode_len();
    let size: usize = part.unicode_len();
    if size > length {
        return false;
    }
    let last: usize = length - size;
    let mut start: usize = 0;
    while start <= last
        invariant
            start <= last + 1,
            length == text@.len(),
            size == part@.len(),
            last == length - size,
            forall|i: int|
                0 <= i < start ==> #[trigger] text@.subrange(i, i + part@.len()) != part@,
        decreases last + 1 - start,
    {
        if stands_at(text, part, start) {
            return true;
        }
        if start == last {
            return false;
        }
        start = start + 1;
    }
    false
}

/// A mark by which short names are told apart: their length and three of their characters.
pub open spec fn text_mark(name: Seq<char>) -> (nat, char, char, char) {
    (name.len(), name[0], name[2], name[name.len() - 3])
}

/// Whether two texts hold the same characters.
pub fn same_text(left: &str, right: &str) -> (result: bool)
    ensures
        result == (left@ == right@),
{
    let length: usize = left.unicode_len();
    if length != right.unicode_len() {
        return false;
    }
    let mut index: usize = 0;
    while index < length
        invariant
            index <= length,
            length == left@.len(),
            length == right@.len(),
            forall|i: int| 0 <= i < index ==> left@[i] == right@[i],
        decreases length - index,
    {
        if left.get_char(index) != right.get_char(index) {
            return false;
        }
        index = index + 1;
    }
    assert(left@ =~= right@);
    true
}

} // verus!
