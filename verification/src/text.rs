//! Text operations over the characters of strings.

use vstd::prelude::*;

verus! {

/// The characters of an optional string.
pub open spec fn text_of(value: Option<String>) -> Option<Seq<char>> {
    match value {
        Some(text) => Some(text@),
        None => None,
    }
}

/// The characters of an optional string slice.
pub open spec fn str_text_of(value: Option<&str>) -> Option<Seq<char>> {
    match value {
        Some(text) => Some(text@),
        None => None,
    }
}

/// The characters of an optional string, or no characters at all.
pub open spec fn text_or_empty(value: Option<Seq<char>>) -> Seq<char> {
    match value {
        Some(text) => text,
        None => Seq::empty(),
    }
}

/// `text` with every leading copy of a non-empty `prefix` taken off.
pub open spec fn without_leading(text: Seq<char>, prefix: Seq<char>) -> Seq<char>
    decreases text.len(),
{
    if prefix.len() > 0 && prefix.is_prefix_of(text) {
        without_leading(text.skip(prefix.len() as int), prefix)
    } else {
        text
    }
}

/// `text` with every trailing `last` taken off.
pub open spec fn without_trailing(text: Seq<char>, last: char) -> Seq<char>
    decreases text.len(),
{
    if text.len() > 0 && text.last() == last {
        without_trailing(text.drop_last(), last)
    } else {
        text
    }
}

/// `pattern` stands in `text` at position `at`.
pub open spec fn occurs_at(text: Seq<char>, pattern: Seq<char>, at: int) -> bool {
    &&& 0 <= at <= text.len() - pattern.len()
    &&& text.subrange(at, at + pattern.len()) == pattern
}

/// The characters of `text`, one by one.
pub(crate) fn chars_of(text: &str) -> (chars: Vec<char>)
    ensures
        chars@ == text@,
{
    let mut chars: Vec<char> = Vec::new();
    for c in it: text.chars()
        invariant
            it.seq() == text@,
            chars@ == text@.take(it.index() as int),
    {
        chars.push(c);
    }
    chars
}

/// Whether `pattern` stands in `text` at position `at`.
pub(crate) fn found_at(text: &Vec<char>, pattern: &Vec<char>, at: usize) -> (found: bool)
    requires
        at <= text@.len(),
    ensures
        found == occurs_at(text@, pattern@, at as int),
{
    let end: usize = text.len();
    if pattern.len() > end - at {
        return false;
    }
    let mut i: usize = 0;
    while i < pattern.len()
        invariant
            i <= pattern@.len(),
            at + pattern@.len() <= end,
            end == text@.len(),
            forall|k: int| 0 <= k < i ==> text@[at + k] == pattern@[k],
        decreases pattern@.len() - i,
    {
        if text[at + i] != pattern[i] {
            assert(text@.subrange(at as int, at + pattern@.len())[i as int] != pattern@[i as int]);
            return false;
        }
        i = i + 1;
    }
    assert(text@.subrange(at as int, at + pattern@.len()) =~= pattern@);
    true
}

/// `text` without the copies of `prefix` that it starts with. An empty
/// `prefix` takes nothing off.
pub(crate) fn trim_leading(text: &str, prefix: &str) -> (rest: String)
    ensures
        rest@ == without_leading(text@, prefix@),
{
    let chars = chars_of(text);
    let pattern = chars_of(prefix);
    let end: usize = chars.len();
    let mut at: usize = 0;
    proof {
        assert(text@.skip(0) =~= text@);
    }
    while pattern.len() > 0 && found_at(&chars, &pattern, at)
        invariant
            chars@ == text@,
            pattern@ == prefix@,
            end == chars@.len(),
            at <= end,
            without_leading(text@, prefix@) == without_leading(text@.skip(at as int), prefix@),
        decreases chars@.len() - at,
    {
        proof {
            let rest = text@.skip(at as int);
            assert(rest.take(prefix@.len() as int) =~= text@.subrange(
                at as int,
                at + prefix@.len(),
            ));
            assert(prefix@.is_prefix_of(rest));
            assert(rest.skip(prefix@.len() as int) =~= text@.skip(at + prefix@.len()));
        }
        at = at + pattern.len();
    }
    proof {
        let rest = text@.skip(at as int);
        if prefix@.len() > 0 && prefix@.is_prefix_of(rest) {
            assert(text@.subrange(at as int, at + prefix@.len()) =~= prefix@) by {
                assert forall|k: int| 0 <= k < prefix@.len() implies text@[at + k]
                    == prefix@[k] by {
                    assert(rest[k] == prefix@[k]);
                }
            }
        }
        assert(text@.subrange(at as int, text@.len() as int) =~= rest);
    }
    text.substring_char(at, end).to_owned()
}

/// `text` without the run of `last` that it ends with.
pub(crate) fn trim_trailing(text: &str, last: char) -> (rest: &str)
    ensures
        rest@ == without_trailing(text@, last),
{
    let chars = chars_of(text);
    let mut end: usize = chars.len();
    proof {
        assert(text@.take(text@.len() as int) =~= text@);
    }
    while end > 0 && chars[end - 1] == last
        invariant
            chars@ == text@,
            end <= chars@.len(),
            without_trailing(text@, last) == without_trailing(text@.take(end as int), last),
        decreases end,
    {
        proof {
            assert(text@.take(end as int).drop_last() =~= text@.take(end - 1));
        }
        end = end - 1;
    }
    proof {
        assert(text@.subrange(0, end as int) =~= text@.take(end as int));
    }
    text.substring_char(0, end)
}

/// An own copy of an optional string slice.
pub(crate) fn own(value: Option<&str>) -> (copy: Option<String>)
    ensures
        text_of(copy) == str_text_of(value),
{
    match value {
        Some(text) => Some(text.to_owned()),
        None => None,
    }
}

/// The string, or an empty one where there is none.
pub(crate) fn or_empty(value: Option<String>) -> (text: String)
    ensures
        text@ == text_or_empty(text_of(value)),
{
    match value {
        Some(text) => text,
        None => String::new(),
    }
}

/// Taking a prefix off twice is taking it off once.
pub proof fn lemma_without_leading_idempotent(text: Seq<char>, prefix: Seq<char>)
    ensures
        without_leading(without_leading(text, prefix), prefix) == without_leading(text, prefix),
    decreases text.len(),
{
    if prefix.len() > 0 && prefix.is_prefix_of(text) {
        lemma_without_leading_idempotent(text.skip(prefix.len() as int), prefix);
    }
}

/// A prefix put before a text does not change what is left without it.
pub proof fn lemma_without_leading_prefixed(text: Seq<char>, prefix: Seq<char>)
    ensures
        without_leading(prefix + text, prefix) == without_leading(text, prefix),
{
    if prefix.len() > 0 {
        assert((prefix + text).take(prefix.len() as int) =~= prefix);
        assert((prefix + text).skip(prefix.len() as int) =~= text);
    } else {
        assert(prefix + text =~= text);
    }
}

/// A trailing `last` does not change what is left without it.
pub proof fn lemma_without_trailing_pushed(text: Seq<char>, last: char)
    ensures
        without_trailing(text.push(last), last) == without_trailing(text, last),
{
    assert(text.push(last).drop_last() =~= text);
}

/// The characters of an optional text are its own, and there are some just
/// where there is a text.
pub proof fn law_optional_text_is_kept(owned: Option<String>, borrowed: Option<&str>)
    ensures
        owned matches Some(text) ==> text_of(owned) == Some(text@) && text_or_empty(text_of(owned))
            == text@,
        owned is None ==> text_of(owned) is None && text_or_empty(text_of(owned)).len() == 0,
        borrowed matches Some(text) ==> str_text_of(borrowed) == Some(text@),
        borrowed is None ==> str_text_of(borrowed) is None,
{
}

/// What is left without a trailing character stops right behind the last other
/// character.
pub proof fn lemma_without_trailing_stops(text: Seq<char>, last: char, end: int)
    requires
        0 <= end <= text.len(),
        forall|k: int| end <= k < text.len() ==> #[trigger] text[k] == last,
        end > 0 ==> text[end - 1] != last,
    ensures
        without_trailing(text, last) == text.take(end),
    decreases text.len(),
{
    if end < text.len() {
        let shorter = text.drop_last();
        assert(text[text.len() - 1] == last);
        assert forall|k: int| end <= k < shorter.len() implies #[trigger] shorter[k] == last by {
            assert(shorter[k] == text[k]);
        }
        lemma_without_trailing_stops(shorter, last, end);
        assert(shorter.take(end) =~= text.take(end));
    } else {
        assert(text.take(end) =~= text);
    }
}

} // verus!
