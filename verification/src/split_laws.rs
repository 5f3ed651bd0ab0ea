//! What splitting gives back of a line that was put together from arguments.
use vstd::prelude::*;

use crate::error::ErrorView;
use crate::split::{
    bare_len, front_match, group_texts, is_bare, lemma_front_match_bounds, line_matches,
    line_words, picked, picked_all, quoted_front, split_outcome, words_in, CaptureGroups,
    GroupTexts,
};
use crate::text::{lemma_first_of_absent, lemma_first_of_next};

verus! {

/// A piece of a command line: an argument in one of the three ways to write it, or a character
/// between arguments.
pub enum Piece {
    Bare(Seq<char>),
    Double(Seq<char>),
    Single(Seq<char>),
    Gap(char),
}

impl Piece {
    /// How the piece stands in the line.
    pub open spec fn written(self) -> Seq<char> {
        match self {
            Piece::Bare(text) => text,
            Piece::Double(text) => seq!['"'] + text + seq!['"'],
            Piece::Single(text) => seq!['\''] + text + seq!['\''],
            Piece::Gap(c) => seq![c],
        }
    }

    /// The argument that the piece stands for.
    pub open spec fn argument(self) -> Option<Seq<char>> {
        match self {
            Piece::Bare(text) => Some(text),
            Piece::Double(text) => Some(text),
            Piece::Single(text) => Some(text),
            Piece::Gap(_) => None,
        }
    }

    /// A bare argument is not empty and holds bare characters only, a quoted one does not hold
    /// its own quote, and a gap is neither a bare character nor a quote.
    pub open spec fn valid(self) -> bool {
        match self {
            Piece::Bare(text) => text.len() > 0 && forall|i: int|
                0 <= i < text.len() ==> is_bare(#[trigger] text[i]),
            Piece::Double(text) => !text.contains('"'),
            Piece::Single(text) => !text.contains('\''),
            Piece::Gap(c) => !is_bare(c) && c != '"' && c != '\'',
        }
    }
}

/// The line that pieces make.
pub open spec fn written_line(pieces: Seq<Piece>) -> Seq<char>
    decreases pieces.len(),
{
    if pieces.len() == 0 {
        Seq::empty()
    } else {
        pieces[0].written() + written_line(pieces.skip(1))
    }
}

/// The arguments among pieces, in order.
pub open spec fn arguments(pieces: Seq<Piece>) -> Seq<Seq<char>>
    decreases pieces.len(),
{
    if pieces.len() == 0 {
        Seq::empty()
    } else {
        match pieces[0].argument() {
            Some(text) => seq![text] + arguments(pieces.skip(1)),
            None => arguments(pieces.skip(1)),
        }
    }
}

/// Whether every piece is valid and no bare argument touches another.
pub open spec fn well_written(pieces: Seq<Piece>) -> bool {
    &&& forall|i: int| 0 <= i < pieces.len() ==> (#[trigger] pieces[i]).valid()
    &&& forall|i: int, j: int|
        0 <= i < pieces.len() && j == i + 1 && j < pieces.len() ==> !(#[trigger] pieces[i] is Bare
            && #[trigger] pieces[j] is Bare)
}

proof fn lemma_bare_len_of(text: Seq<char>, rest: Seq<char>)
    requires
        forall|i: int| 0 <= i < text.len() ==> is_bare(#[trigger] text[i]),
        rest.len() > 0 ==> !is_bare(rest[0]),
    ensures
        bare_len(text + rest) == text.len(),
    decreases text.len(),
{
    let s = text + rest;
    if text.len() > 0 {
        assert(is_bare(text[0]));
        assert(s.skip(1) =~= text.skip(1) + rest);
        assert forall|i: int| 0 <= i < text.skip(1).len() implies is_bare(
            #[trigger] text.skip(1)[i],
        ) by {
            assert(is_bare(text[i + 1]));
        }
        lemma_bare_len_of(text.skip(1), rest);
    } else {
        assert(s =~= rest);
    }
}

proof fn lemma_quoted_front(text: Seq<char>, quote: char, rest: Seq<char>)
    requires
        !text.contains(quote),
    ensures
        quoted_front(seq![quote] + text + seq![quote] + rest, quote) == Some(text),
{
    let s = seq![quote] + text + seq![quote] + rest;
    assert(s.skip(1) =~= text + seq![quote] + rest);
    lemma_first_of_next(text, quote, rest);
    assert(s.skip(1).take(text.len() as int) =~= text);
}

/// The match at the front of a line whose first piece is an argument is that argument.
proof fn lemma_front_is_argument(piece: Piece, rest: Seq<char>)
    requires
        piece.valid(),
        piece !is Gap,
        piece is Bare && rest.len() > 0 ==> !is_bare(rest[0]),
    ensures
        front_match(piece.written() + rest) matches Some((groups, len)) && picked(groups)
            == piece.argument() && len == piece.written().len(),
{
    let s = piece.written() + rest;
    match piece {
        Piece::Bare(text) => {
            lemma_bare_len_of(text, rest);
            assert(is_bare(text[0]));
            assert(s[0] == text[0]);
            assert(s.take(text.len() as int) =~= text);
        },
        Piece::Double(text) => lemma_quoted_front(text, '"', rest),
        Piece::Single(text) => {
            lemma_quoted_front(text, '\'', rest);
            assert(s[0] == '\'');
        },
        Piece::Gap(_) => {},
    }
}

/// The first character of what a piece other than a bare argument looks like is not bare.
proof fn lemma_line_after_bare(pieces: Seq<Piece>)
    requires
        well_written(pieces),
        pieces.len() > 0 ==> pieces[0] !is Bare,
    ensures
        written_line(pieces).len() > 0 ==> !is_bare(written_line(pieces)[0]),
{
    if pieces.len() > 0 {
        assert(pieces[0].valid());
        assert(pieces[0].written().len() > 0);
        assert(written_line(pieces)[0] == pieces[0].written()[0]);
    }
}

proof fn lemma_well_written_tail(pieces: Seq<Piece>)
    requires
        well_written(pieces),
        pieces.len() > 0,
    ensures
        well_written(pieces.skip(1)),
{
    let tail = pieces.skip(1);
    assert forall|i: int| 0 <= i < tail.len() implies (#[trigger] tail[i]).valid() by {
        assert(pieces[i + 1].valid());
    }
    assert forall|i: int, j: int|
        0 <= i < tail.len() && j == i + 1 && j < tail.len() implies !(#[trigger] tail[i] is Bare
        && #[trigger] tail[j] is Bare) by {
        assert(!(pieces[i + 1] is Bare && pieces[j + 1] is Bare));
    }
}

/// Splitting gives back the arguments that a line was made of, whichever way each was written
/// and whatever stood between them.
pub proof fn law_split_gives_back_arguments(pieces: Seq<Piece>)
    requires
        well_written(pieces),
    ensures
        line_words(written_line(pieces)) == arguments(pieces),
    decreases pieces.len(),
{
    let s = written_line(pieces);
    if pieces.len() == 0 {
        assert(line_words(s) =~= Seq::<Seq<char>>::empty());
    } else {
        let tail = pieces.skip(1);
        let rest = written_line(tail);
        assert(pieces[0].valid());
        lemma_well_written_tail(pieces);
        law_split_gives_back_arguments(tail);
        assert(s.skip(pieces[0].written().len() as int) =~= rest);
        match pieces[0] {
            Piece::Gap(c) => {
                assert(s[0] == c);
                assert(front_match(s) is None);
                assert(line_matches(s) == line_matches(rest));
            },
            _ => {
                if pieces[0] is Bare {
                    assert(tail.len() > 0 ==> tail[0] == pieces[1]);
                    lemma_line_after_bare(tail);
                }
                lemma_front_is_argument(pieces[0], rest);
                lemma_front_match_bounds(s);
                let (groups, _) = front_match(s)->0;
                assert(line_matches(s) == seq![groups] + line_matches(rest));
                assert(picked_all(seq![groups] + line_matches(rest)) =~= seq![picked(groups)->0]
                    + picked_all(line_matches(rest)));
            },
        }
    }
}

/// Splitting goes on behind the arguments of a line: what follows them is split on its own,
/// whatever it is.
pub proof fn law_split_goes_on_behind_arguments(pieces: Seq<Piece>, rest: Seq<char>)
    requires
        well_written(pieces),
        pieces.len() > 0 && pieces.last() is Bare && rest.len() > 0 ==> !is_bare(rest[0]),
    ensures
        line_words(written_line(pieces) + rest) == arguments(pieces) + line_words(rest),
    decreases pieces.len(),
{
    let s = written_line(pieces) + rest;
    if pieces.len() == 0 {
        assert(s =~= rest);
        assert(arguments(pieces) + line_words(rest) =~= line_words(rest));
    } else {
        let tail = pieces.skip(1);
        let behind = written_line(tail) + rest;
        assert(pieces[0].valid());
        lemma_well_written_tail(pieces);
        assert(tail.len() > 0 ==> tail.last() == pieces.last());
        law_split_goes_on_behind_arguments(tail, rest);
        assert(s =~= pieces[0].written() + behind);
        assert(s.skip(pieces[0].written().len() as int) =~= behind);
        match pieces[0] {
            Piece::Gap(c) => {
                assert(s[0] == c);
                assert(front_match(s) is None);
                assert(line_matches(s) == line_matches(behind));
            },
            _ => {
                if pieces[0] is Bare && behind.len() > 0 {
                    if tail.len() > 0 {
                        assert(tail[0] == pieces[1]);
                        lemma_line_after_bare(tail);
                        assert(tail[0].valid());
                        assert(tail[0].written().len() > 0);
                        assert(behind[0] == written_line(tail)[0]);
                    } else {
                        assert(behind =~= rest);
                    }
                }
                lemma_front_is_argument(pieces[0], behind);
                lemma_front_match_bounds(s);
                let (groups, _) = front_match(s)->0;
                assert(line_matches(s) == seq![groups] + line_matches(behind));
                assert(picked_all(seq![groups] + line_matches(behind)) =~= seq![picked(groups)->0]
                    + picked_all(line_matches(behind)));
                assert(arguments(pieces) == seq![picked(groups)->0] + arguments(tail));
                assert(seq![picked(groups)->0] + (arguments(tail) + line_words(rest)) =~= (
                seq![picked(groups)->0] + arguments(tail)) + line_words(rest));
            },
        }
    }
}

/// A quote that is never closed only separates words.
pub proof fn law_unclosed_quote_separates(quote: char, rest: Seq<char>)
    requires
        quote == '"' || quote == '\'',
        !rest.contains(quote),
    ensures
        line_words(seq![quote] + rest) == line_words(rest),
{
    let s = seq![quote] + rest;
    assert(s.skip(1) =~= rest);
    lemma_first_of_absent(rest, quote);
    assert(front_match(s) is None);
}

/// The text of the first of the three groups that took part is the one that counts.
pub proof fn law_first_group_counts(groups: CaptureGroups)
    ensures
        groups.first is Some ==> picked(groups@) == Some(groups.first->0@),
        groups.first is None && groups.second is Some ==> picked(groups@) == Some(
            groups.second->0@,
        ),
        groups.first is None && groups.second is None && groups.third is Some ==> picked(groups@)
            == Some(groups.third->0@),
        groups.first is None && groups.second is None && groups.third is None ==> picked(groups@)
            is None,
{
}

/// Every match is one word, in order, unless some match has no group that took part: that is an
/// invalid command.
pub proof fn law_every_match_is_a_word(matches: Seq<CaptureGroups>)
    ensures
        words_in(group_texts(matches)) is Err <==> exists|i: int|
            0 <= i < matches.len() && (#[trigger] matches[i]).first is None && matches[i].second
                is None && matches[i].third is None,
        words_in(group_texts(matches)) is Err ==> words_in(group_texts(matches))->Err_0
            == ErrorView::Generic("Invalid commands"@),
        words_in(group_texts(matches)) is Ok ==> words_in(group_texts(matches))->Ok_0.len()
            == matches.len(),
        words_in(group_texts(matches)) is Ok ==> forall|i: int|
            0 <= i < matches.len() ==> Some(
                #[trigger] words_in(group_texts(matches))->Ok_0[i],
            ) == picked(matches[i]@),
{
    let found = group_texts(matches);
    assert forall|i: int| 0 <= i < matches.len() implies #[trigger] found[i] == matches[i]@ by {}
    if words_in(found) is Err {
        let i = choose|i: int| 0 <= i < found.len() && picked(#[trigger] found[i]) is None;
        assert(found[i] == matches[i]@);
        law_first_group_counts(matches[i]);
        assert(matches[i].first is None);
    } else {
        assert forall|i: int| 0 <= i < matches.len() implies !((#[trigger] matches[i]).first is None
            && matches[i].second is None && matches[i].third is None) by {
            assert(picked(found[i]) is Some);
            law_first_group_counts(matches[i]);
        }
        assert forall|i: int| 0 <= i < matches.len() implies Some(
            #[trigger] words_in(found)->Ok_0[i],
        ) == picked(matches[i]@) by {
            assert(picked(found[i]) is Some);
        }
    }
}

/// What is wrong with a pattern is the failure of splitting with it; what a pattern found is
/// made into words.
pub proof fn law_wrong_pattern_is_told(found: Result<Seq<GroupTexts>, Seq<char>>)
    ensures
        found is Err ==> split_outcome(found) == Err::<Seq<Seq<char>>, ErrorView>(
            ErrorView::Generic(found->Err_0),
        ),
        found is Ok && split_outcome(found) is Ok ==> split_outcome(found)->Ok_0.len()
            == found->Ok_0.len(),
{
}

/// Whether a character is an ASCII letter or digit, an underscore or a dash.
pub open spec fn is_plain(c: char) -> bool {
    ||| 'a' <= c <= 'z'
    ||| 'A' <= c <= 'Z'
    ||| '0' <= c <= '9'
    ||| c == '_'
    ||| c == '-'
}

/// A line of ASCII letters and digits, underscores and dashes is one word.
pub proof fn law_plain_line_is_one_word(s: Seq<char>)
    requires
        s.len() > 0,
        forall|i: int| 0 <= i < s.len() ==> is_plain(#[trigger] s[i]),
    ensures
        line_words(s) == seq![s],
{
    let pieces = seq![Piece::Bare(s)];
    assert forall|i: int| 0 <= i < s.len() implies is_bare(#[trigger] s[i]) by {
        assert(is_plain(s[i]));
    }
    assert(pieces.skip(1) =~= Seq::<Piece>::empty());
    assert(written_line(pieces.skip(1)) =~= Seq::<char>::empty());
    assert(written_line(pieces) =~= s);
    assert(arguments(pieces.skip(1)) =~= Seq::<Seq<char>>::empty());
    assert(arguments(pieces) =~= seq![s]);
    law_split_gives_back_arguments(pieces);
}

/// Any other ASCII character but a quote separates what is before it from what is behind it.
pub proof fn law_other_characters_separate(pieces: Seq<Piece>, c: char, rest: Seq<char>)
    requires
        well_written(pieces),
        c <= '\u{7f}',
        !is_plain(c),
        c != '"',
        c != '\'',
    ensures
        line_words(written_line(pieces) + seq![c] + rest) == arguments(pieces) + line_words(rest),
{
    let behind = seq![c] + rest;
    assert(written_line(pieces) + seq![c] + rest =~= written_line(pieces) + behind);
    law_split_goes_on_behind_arguments(pieces, behind);
    assert(behind.skip(1) =~= rest);
    assert(front_match(behind) is None);
}

} // verus!
