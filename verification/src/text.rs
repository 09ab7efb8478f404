//! Text helpers.
use vstd::prelude::*;

verus! {

/// The characters of `text`.
pub fn chars_of(text: &str) -> (chars: Vec<char>)
    ensures
        chars@ == text@,
{
    let mut chars: Vec<char> = Vec::new();
    for c in it: text.chars()
        invariant
            chars@ == it.seq().take(it.index() as int),
    {
        chars.push(c);
        assert(it.seq().take(it.index() as int + 1) =~= chars@);
    }
    assert(chars@ =~= text@);
    chars
}

/// Whether `part` stands in `whole` from position `at` on.
fn stands_at(whole: &Vec<char>, part: &Vec<char>, at: usize) -> (found: bool)
    requires
        at + part@.len() <= whole@.len(),
    ensures
        found == (whole@.subrange(at as int, at + part@.len()) == part@),
{
    let limit: usize = whole.len();
    let mut i: usize = 0;
    while i < part.len()
        invariant
            i <= part@.len(),
            limit == whole@.len(),
            at + part@.len() <= limit,
            forall|j: int| 0 <= j < i ==> whole@[at + j] == part@[j],
        decreases part@.len() - i,
    {
        if whole[at + i] != part[i] {
            assert(whole@.subrange(at as int, at + part@.len())[i as int] != part@[i as int]);
            return false;
        }
        i = i + 1;
    }
    assert(whole@.subrange(at as int, at + part@.len()) =~= part@);
    true
}

/// `text` starts with `prefix`.
pub open spec fn begins(text: Seq<char>, prefix: Seq<char>) -> bool {
    text.len() >= prefix.len() && text.take(prefix.len() as int) == prefix
}

/// `text` ends with `suffix`.
pub open spec fn ends(text: Seq<char>, suffix: Seq<char>) -> bool {
    text.len() >= suffix.len() && text.skip(text.len() - suffix.len()) == suffix
}

/// Whether `text` starts with `prefix`.
pub fn has_prefix(text: &str, prefix: &str) -> (found: bool)
    ensures
        found == begins(text@, prefix@),
{
    let whole = chars_of(text);
    let part = chars_of(prefix);
    if whole.len() < part.len() {
        return false;
    }
    assert(text@.subrange(0, prefix@.len() as int) =~= text@.take(prefix@.len() as int));
    stands_at(&whole, &part, 0)
}

/// Whether `text` ends with `suffix`.
pub fn has_suffix(text: &str, suffix: &str) -> (found: bool)
    ensures
        found == ends(text@, suffix@),
{
    let whole = chars_of(text);
    let part = chars_of(suffix);
    if whole.len() < part.len() {
        return false;
    }
    let at: usize = whole.len() - part.len();
    assert(text@.subrange(at as int, at + suffix@.len()) =~= text@.skip(at as int));
    stands_at(&whole, &part, at)
}

/// Whether the two texts are the same.
pub fn same_text(left: &str, right: &str) -> (same: bool)
    ensures
        same == (left@ == right@),
{
    let whole = chars_of(left);
    let part = chars_of(right);
    if whole.len() != part.len() {
        return false;
    }
    assert(left@.subrange(0, right@.len() as int) =~= left@);
    stands_at(&whole, &part, 0)
}

/// `text` without `suffix`, if it ends so.
pub open spec fn stripped(text: Seq<char>, suffix: Seq<char>) -> Option<Seq<char>> {
    if ends(text, suffix) {
        Some(text.take(text.len() - suffix.len()))
    } else {
        None
    }
}

/// `text` without `suffix`, if it ends so.
pub fn strip_suffix(text: &str, suffix: &str) -> (rest: Option<String>)
    ensures
        match rest {
            Some(rest) => stripped(text@, suffix@) == Some(rest@),
            None => stripped(text@, suffix@) is None,
        },
{
    if !has_suffix(text, suffix) {
        return None;
    }
    let whole: usize = chars_of(text).len();
    let part: usize = chars_of(suffix).len();
    let rest = text.substring_char(0, whole - part).to_owned();
    assert(rest@ =~= text@.take(text@.len() - suffix@.len()));
    Some(rest)
}

/// `text` without any `suffix` at its end.
pub open spec fn trimmed_end(text: Seq<char>, suffix: Seq<char>) -> Seq<char>
    decreases text.len(),
{
    if suffix.len() > 0 && ends(text, suffix) {
        trimmed_end(text.take(text.len() - suffix.len()), suffix)
    } else {
        text
    }
}

/// `text` without any `suffix` at its end.
pub fn trim_end(text: &str, suffix: &str) -> (rest: String)
    requires
        suffix@.len() > 0,
    ensures
        rest@ == trimmed_end(text@, suffix@),
    decreases text@.len(),
{
    match strip_suffix(text, suffix) {
        Some(rest) => trim_end(rest.as_str(), suffix),
        None => text.to_owned(),
    }
}

/// Whether `text` is `front` followed by `back`.
pub fn is_concatenation(text: &str, front: &str, back: &str) -> (same: bool)
    ensures
        same == (text@ == front@ + back@),
{
    same_text(text, front.to_owned().concat(back).as_str())
}

} // verus!
