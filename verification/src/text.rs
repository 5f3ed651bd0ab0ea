//! Characters and texts.
use vstd::prelude::*;

verus! {

/// The characters of a text that may be absent.
pub open spec fn text_of(text: Option<String>) -> Option<Seq<char>> {
    match text {
        Some(t) => Some(t@),
        None => None,
    }
}

/// The characters of a borrowed text that may be absent.
pub open spec fn str_of(text: Option<&str>) -> Option<Seq<char>> {
    match text {
        Some(t) => Some(t@),
        None => None,
    }
}

/// The characters of a text, or of the text of an error in its place.
pub open spec fn outcome_of(outcome: Result<String, String>) -> Result<Seq<char>, Seq<char>> {
    match outcome {
        Ok(text) => Ok(text@),
        Err(text) => Err(text@),
    }
}

/// The characters of every text.
pub open spec fn texts_of(texts: Seq<String>) -> Seq<Seq<char>> {
    texts.map_values(|t: String| t@)
}

/// The first position of `c` in `s`, or the length of `s` where there is none.
pub open spec fn first_of(s: Seq<char>, c: char) -> int
    decreases s.len(),
{
    if s.len() == 0 || s[0] == c {
        0
    } else {
        1 + first_of(s.skip(1), c)
    }
}

pub proof fn lemma_first_of_bounds(s: Seq<char>, c: char)
    ensures
        0 <= first_of(s, c) <= s.len(),
    decreases s.len(),
{
    if s.len() > 0 && s[0] != c {
        lemma_first_of_bounds(s.skip(1), c);
    }
}

pub proof fn lemma_first_of_absent(s: Seq<char>, c: char)
    requires
        !s.contains(c),
    ensures
        first_of(s, c) == s.len(),
    decreases s.len(),
{
    if s.len() > 0 {
        assert(s[0] != c);
        assert forall|i: int| 0 <= i < s.skip(1).len() implies s.skip(1)[i] != c by {
            assert(s[i + 1] != c);
        }
        lemma_first_of_absent(s.skip(1), c);
    }
}

pub proof fn lemma_first_of_next(text: Seq<char>, c: char, rest: Seq<char>)
    requires
        !text.contains(c),
    ensures
        first_of(text + seq![c] + rest, c) == text.len(),
    decreases text.len(),
{
    let s = text + seq![c] + rest;
    if text.len() > 0 {
        assert(text[0] != c);
        assert(s.skip(1) =~= text.skip(1) + seq![c] + rest);
        assert forall|i: int| 0 <= i < text.skip(1).len() implies text.skip(1)[i] != c by {
            assert(text[i + 1] != c);
        }
        lemma_first_of_next(text.skip(1), c, rest);
    }
}

/// The characters of a text, one by one.
pub fn chars_of(text: &str) -> (chars: Vec<char>)
    ensures
        chars@ == text@,
{
    let mut chars: Vec<char> = Vec::new();
    for c in it: text.chars()
        invariant
            it.seq() == text@,
            chars@ == text@.take(it.index()),
    {
        chars.push(c);
    }
    chars
}

/// A copy of a text that may be absent.
pub(crate) fn copy_text(text: &Option<String>) -> (copy: Option<String>)
    ensures
        copy == *text,
{
    match text {
        Some(t) => Some(t.clone()),
        None => None,
    }
}

/// A copy of two texts that may be absent.
pub(crate) fn copy_pair(pair: &Option<(String, String)>) -> (copy: Option<(String, String)>)
    ensures
        copy == *pair,
{
    match pair {
        Some((first, second)) => Some((first.clone(), second.clone())),
        None => None,
    }
}

/// Where a character first stands, or how many characters there are where it does not.
pub fn position_of(chars: &Vec<char>, c: char) -> (at: usize)
    ensures
        at == first_of(chars@, c),
{
    let mut i: usize = 0;
    assert(chars@.skip(0) =~= chars@);
    while i < chars.len() && chars[i] != c
        invariant
            i <= chars.len(),
            first_of(chars@, c) == i + first_of(chars@.skip(i as int), c),
        decreases chars.len() - i,
    {
        assert(chars@.skip(i as int).skip(1) =~= chars@.skip(i + 1));
        i = i + 1;
    }
    i
}

/// Whether a text starts with another.
pub fn starts_with(chars: &Vec<char>, front: &str) -> (r: bool)
    ensures
        r == front@.is_prefix_of(chars@),
{
    let wanted = chars_of(front);
    if wanted.len() > chars.len() {
        return false;
    }
    let mut i: usize = 0;
    while i < wanted.len()
        invariant
            i <= wanted.len() <= chars.len(),
            wanted@ == front@,
            forall|k: int| 0 <= k < i ==> chars@[k] == #[trigger] wanted@[k],
        decreases wanted.len() - i,
    {
        if chars[i] != wanted[i] {
            assert(chars@.subrange(0, wanted.len() as int)[i as int] != wanted@[i as int]);
            return false;
        }
        i = i + 1;
    }
    assert(wanted@ =~= chars@.subrange(0, wanted.len() as int));
    true
}

/// Whether a character is white space: it has the Unicode property `White_Space`.
pub open spec fn is_white(c: char) -> bool {
    ||| c == ' '
    ||| '\t' <= c <= '\r'
    ||| c == '\u{85}'
    ||| c == '\u{a0}'
    ||| c == '\u{1680}'
    ||| '\u{2000}' <= c <= '\u{200a}'
    ||| c == '\u{2028}'
    ||| c == '\u{2029}'
    ||| c == '\u{202f}'
    ||| c == '\u{205f}'
    ||| c == '\u{3000}'
}

/// Whether `part` is what `text` holds from one position to another, with nothing but white
/// space around it.
pub open spec fn is_core(text: Seq<char>, part: Seq<char>, from: int, to: int) -> bool {
    &&& 0 <= from <= to <= text.len()
    &&& part == text.subrange(from, to)
    &&& blank(text.take(from))
    &&& blank(text.skip(to))
}

/// Whether `part` is `text` without the white space around it.
pub open spec fn is_trimmed(text: Seq<char>, part: Seq<char>) -> bool {
    &&& exists|from: int, to: int| is_core(text, part, from, to)
    &&& part.len() > 0 ==> !is_white(part[0]) && !is_white(part.last())
}

/// Whether a text holds nothing but white space.
pub open spec fn blank(text: Seq<char>) -> bool {
    forall|i: int| 0 <= i < text.len() ==> is_white(#[trigger] text[i])
}

/// `str::trim`.
///
/// Trusted: what is left is a part of the text that neither starts nor ends with white space,
/// and all around it is white space.
pub assume_specification[ str::trim ](text: &str) -> (trimmed: &str)
    ensures
        is_trimmed(text@, trimmed@),
;

/// Whether a text holds nothing but white space.
pub fn is_blank(text: &str) -> (r: bool)
    ensures
        r == blank(text@),
{
    let trimmed = text.trim();
    proof {
        let (from, to) = choose|from: int, to: int| is_core(text@, trimmed@, from, to);
        if trimmed@.len() > 0 {
            assert(trimmed@[0] == text@[from]);
        } else {
            assert forall|i: int| 0 <= i < text@.len() implies is_white(#[trigger] text@[i]) by {
                if i < from {
                    assert(is_white(text@.take(from)[i]));
                } else {
                    assert(is_white(text@.skip(to)[i - to]));
                }
            }
        }
    }
    trimmed.is_empty()
}

/// A text is blank exactly where its parts are.
pub proof fn law_blank_in_parts(a: Seq<char>, b: Seq<char>)
    ensures
        blank(a + b) <==> blank(a) && blank(b),
{
    if blank(a + b) {
        assert forall|i: int| 0 <= i < a.len() implies is_white(#[trigger] a[i]) by {
            assert((a + b)[i] == a[i]);
        }
        assert forall|i: int| 0 <= i < b.len() implies is_white(#[trigger] b[i]) by {
            assert((a + b)[a.len() + i] == b[i]);
        }
    }
}

/// A text with a visible ASCII character in it is not blank, and one of spaces and tabs is.
pub proof fn law_visible_text_is_not_blank(text: Seq<char>)
    ensures
        (exists|i: int| 0 <= i < text.len() && '!' <= #[trigger] text[i] <= '~') ==> !blank(text),
        (forall|i: int|
            0 <= i < text.len() ==> #[trigger] text[i] == ' ' || text[i] == '\t') ==> blank(text),
{
}

} // verus!
