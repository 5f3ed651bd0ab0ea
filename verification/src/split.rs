//! How a line typed at the prompt falls into words.
//!
//! A word is what stands between two double quotes, what stands between two single quotes, or a
//! run of word characters and dashes. Everything else separates words.
use vstd::prelude::*;

use crate::error::{Error, ErrorView};
use crate::text::{first_of, lemma_first_of_bounds, text_of, texts_of};

verus! {

/// The pattern whose successive matches are the words of a line.
pub const REPL_LINE_SPLIT_REGEX: &'static str = "\"([^\"]*)\"|'([^']*)'|([\\w\\-]+)";

/// The text of the first three groups of one match.
#[derive(Debug, PartialEq, Eq)]
pub struct CaptureGroups {
    pub first: Option<String>,
    pub second: Option<String>,
    pub third: Option<String>,
}

/// Three groups, each with its text where it took part in the match.
pub type GroupTexts = (Option<Seq<char>>, Option<Seq<char>>, Option<Seq<char>>);

impl View for CaptureGroups {
    type V = GroupTexts;

    open spec fn view(&self) -> GroupTexts {
        (text_of(self.first), text_of(self.second), text_of(self.third))
    }
}

/// The texts of every match.
pub open spec fn group_texts(matches: Seq<CaptureGroups>) -> Seq<GroupTexts> {
    matches.map_values(|m: CaptureGroups| m@)
}

// ---------------------------------------------------------------------------------------------
// The grammar of a line
// ---------------------------------------------------------------------------------------------

/// Whether `\w` matches a character outside ASCII.
pub uninterp spec fn unicode_word(c: char) -> bool;

/// Whether a character can stand in a word that is not quoted: `[\w\-]`.
pub open spec fn is_bare(c: char) -> bool {
    ||| 'a' <= c <= 'z'
    ||| 'A' <= c <= 'Z'
    ||| '0' <= c <= '9'
    ||| c == '_'
    ||| c == '-'
    ||| c > '\u{7f}' && unicode_word(c)
}

/// How many characters at the front of `s` can stand in a bare word.
pub open spec fn bare_len(s: Seq<char>) -> int
    decreases s.len(),
{
    if s.len() == 0 || !is_bare(s[0]) {
        0
    } else {
        1 + bare_len(s.skip(1))
    }
}

/// What `quote` at the front of `s` encloses, where a second one closes it.
pub open spec fn quoted_front(s: Seq<char>, quote: char) -> Option<Seq<char>> {
    if s.len() > 0 && s[0] == quote && first_of(s.skip(1), quote) < s.len() - 1 {
        Some(s.skip(1).take(first_of(s.skip(1), quote)))
    } else {
        None
    }
}

/// The match at the very front of `s`, if there is one: its groups and its length.
pub open spec fn front_match(s: Seq<char>) -> Option<(GroupTexts, int)> {
    if let Some(t) = quoted_front(s, '"') {
        Some(((Some(t), None, None), t.len() as int + 2))
    } else if let Some(t) = quoted_front(s, '\'') {
        Some(((None, Some(t), None), t.len() as int + 2))
    } else if bare_len(s) > 0 {
        Some(((None, None, Some(s.take(bare_len(s)))), bare_len(s)))
    } else {
        None
    }
}

/// The successive matches in a line, from the left, none overlapping another.
pub open spec fn line_matches(s: Seq<char>) -> Seq<GroupTexts>
    decreases s.len(),
{
    if s.len() == 0 {
        Seq::empty()
    } else {
        match front_match(s) {
            Some((groups, len)) => {
                proof {
                    lemma_front_match_bounds(s);
                }
                seq![groups] + line_matches(s.skip(len))
            },
            None => line_matches(s.skip(1)),
        }
    }
}

/// The text that a match stands for: that of the first group that took part.
pub open spec fn picked(groups: GroupTexts) -> Option<Seq<char>> {
    if groups.0 is Some {
        groups.0
    } else if groups.1 is Some {
        groups.1
    } else {
        groups.2
    }
}

/// The text that each match stands for.
pub open spec fn picked_all(found: Seq<GroupTexts>) -> Seq<Seq<char>> {
    Seq::new(found.len(), |i: int| picked(found[i])->0)
}

/// The words of a line.
pub open spec fn line_words(s: Seq<char>) -> Seq<Seq<char>> {
    picked_all(line_matches(s))
}

proof fn lemma_bare_len_bounds(s: Seq<char>)
    ensures
        0 <= bare_len(s) <= s.len(),
    decreases s.len(),
{
    if s.len() > 0 && is_bare(s[0]) {
        lemma_bare_len_bounds(s.skip(1));
    }
}

pub proof fn lemma_front_match_bounds(s: Seq<char>)
    ensures
        front_match(s) matches Some((_, len)) ==> 0 < len <= s.len(),
{
    if s.len() > 0 {
        lemma_first_of_bounds(s.skip(1), '"');
        lemma_first_of_bounds(s.skip(1), '\'');
    }
    lemma_bare_len_bounds(s);
}

// ---------------------------------------------------------------------------------------------
// Splitting
// ---------------------------------------------------------------------------------------------

/// What the regex engine finds with a pattern in a line: the groups of every match, or what is
/// wrong with the pattern.
pub uninterp spec fn regex_captures(pattern: Seq<char>, line: Seq<char>) -> Result<
    Seq<GroupTexts>,
    Seq<char>,
>;

/// The texts of what [`captures`] returns.
pub open spec fn captures_view(found: Result<Vec<CaptureGroups>, String>) -> Result<
    Seq<GroupTexts>,
    Seq<char>,
> {
    match found {
        Ok(matches) => Ok(group_texts(matches@)),
        Err(text) => Err(text@),
    }
}

/// `regex::Regex::new` on the pattern, then `regex::Regex::captures_iter` on the line, with the
/// text of the groups numbered one to three of each match.
///
/// Trusted: the outcome depends on the pattern and the line alone, and for
/// [`REPL_LINE_SPLIT_REGEX`] it is what the syntax of the pattern says: the pattern is well
/// formed, and its leftmost matches, each looked for from the end of the one before, with the
/// first alternative that fits preferred and every repetition as long as it can be, are those of
/// [`line_matches`]. Which characters outside ASCII `\w` matches is left open.
#[verifier::external_body]
fn captures(pattern: &str, line: &str) -> (found: Result<Vec<CaptureGroups>, String>)
    ensures
        captures_view(found) == regex_captures(pattern@, line@),
        pattern@ == REPL_LINE_SPLIT_REGEX@ ==> found is Ok,
        pattern@ == REPL_LINE_SPLIT_REGEX@ ==> group_texts(found->Ok_0@) == line_matches(line@),
        pattern@ == REPL_LINE_SPLIT_REGEX@ ==> forall|i: int, k: int|
            0 <= i < found->Ok_0@.len() && found->Ok_0@[i].third is Some && 0 <= k
                < found->Ok_0@[i].third->0@.len() && found->Ok_0@[i].third->0@[k] > '\u{7f}'
                ==> unicode_word(#[trigger] found->Ok_0@[i].third->0@[k]),
{
    let regex = regex::Regex::new(pattern).map_err(|e| e.to_string())?;
    let found = regex.captures_iter(line);
    Ok(
        found.map(
            |c|
                CaptureGroups {
                    first: c.get(1).map(|m| m.as_str().to_string()),
                    second: c.get(2).map(|m| m.as_str().to_string()),
                    third: c.get(3).map(|m| m.as_str().to_string()),
                },
        ).collect(),
    )
}

/// The words in what a pattern found: one for each match, unless some match has no group that
/// took part.
pub open spec fn words_in(found: Seq<GroupTexts>) -> Result<Seq<Seq<char>>, ErrorView> {
    if forall|i: int| 0 <= i < found.len() ==> picked(#[trigger] found[i]) is Some {
        Ok(picked_all(found))
    } else {
        Err(ErrorView::Generic("Invalid commands"@))
    }
}

/// The words in a line, given what the pattern found in it.
pub open spec fn split_outcome(found: Result<Seq<GroupTexts>, Seq<char>>) -> Result<
    Seq<Seq<char>>,
    ErrorView,
> {
    match found {
        Ok(matches) => words_in(matches),
        Err(text) => Err(ErrorView::Generic(text)),
    }
}

/// The characters of words, or of the error in their place.
pub open spec fn words_view(words: Result<Vec<String>, Error>) -> Result<
    Seq<Seq<char>>,
    ErrorView,
> {
    match words {
        Ok(list) => Ok(texts_of(list@)),
        Err(e) => Err(e@),
    }
}

/// The text of the first group that took part in a match.
pub fn pick(groups: &CaptureGroups) -> (text: Option<String>)
    ensures
        text_of(text) == picked(groups@),
{
    match &groups.first {
        Some(t) => Some(t.clone()),
        None => match &groups.second {
            Some(t) => Some(t.clone()),
            None => match &groups.third {
                Some(t) => Some(t.clone()),
                None => None,
            },
        },
    }
}

/// One word for each match, in order.
pub fn words_of(matches: &Vec<CaptureGroups>) -> (words: Result<Vec<String>, Error>)
    ensures
        words_view(words) == words_in(group_texts(matches@)),
{
    let ghost found = group_texts(matches@);
    let mut words: Vec<String> = Vec::new();
    let mut i: usize = 0;
    while i < matches.len()
        invariant
            i <= matches.len(),
            found == group_texts(matches@),
            words.len() == i,
            forall|k: int|
                0 <= k < i ==> picked(#[trigger] found[k]) == Some(words@[k]@),
        decreases matches.len() - i,
    {
        assert(found[i as int] == matches@[i as int]@);
        match pick(&matches[i]) {
            Some(word) => words.push(word),
            None => {
                return Err(Error::Generic("Invalid commands".to_string()));
            },
        }
        i = i + 1;
    }
    assert(texts_of(words@) =~= picked_all(found));
    Ok(words)
}

/// Splits a line with a pattern of at most three groups.
pub fn split_with(pattern: &str, line: &str) -> (words: Result<Vec<String>, Error>)
    ensures
        words_view(words) == split_outcome(regex_captures(pattern@, line@)),
        pattern@ == REPL_LINE_SPLIT_REGEX@ ==> words_view(words) == words_in(line_matches(line@)),
{
    match captures(pattern, line) {
        Ok(matches) => words_of(&matches),
        Err(text) => Err(Error::Generic(text)),
    }
}

/// Splits a line typed at the prompt into its words.
pub fn split_line(line: &str) -> (words: Result<Vec<String>, Error>)
    ensures
        words is Ok,
        texts_of(words->Ok_0@) == line_words(line@),
{
    proof {
        lemma_every_match_has_text(line@);
    }
    split_with(REPL_LINE_SPLIT_REGEX, line)
}

/// Every match of the pattern stands for some text, so no line is refused.
pub proof fn lemma_every_match_has_text(s: Seq<char>)
    ensures
        forall|i: int|
            0 <= i < line_matches(s).len() ==> picked(#[trigger] line_matches(s)[i]) is Some,
    decreases s.len(),
{
    if s.len() > 0 {
        lemma_front_match_bounds(s);
        match front_match(s) {
            Some((groups, len)) => {
                lemma_every_match_has_text(s.skip(len));
                assert forall|i: int| 0 <= i < line_matches(s).len() implies picked(
                    #[trigger] line_matches(s)[i],
                ) is Some by {
                    if i > 0 {
                        assert(line_matches(s)[i] == line_matches(s.skip(len))[i - 1]);
                    }
                }
            },
            None => lemma_every_match_has_text(s.skip(1)),
        }
    }
}

} // verus!
