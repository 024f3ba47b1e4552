//! Text is searched, cut and put together as it reads.

use vstd::prelude::*;

use crate::decimal::{
    all_digits, decimal, digits_value, law_decimal_read_back, lemma_decimal_digits, parsed_u64,
    signed_decimal,
};
use crate::text::{
    ascii_alphanumeric, ascii_lower, ascii_upper, contains_text, first_word, is_white_space,
    joined_by_space, lowercase, occurs_at, split_pieces, starts_with_text, trimmed, trimmed_end,
    trimmed_start, without_trailing, word_at,
};

verus! {

/// A text contains another exactly where it is made of something before it,
/// the other, and something behind it; it begins with it where nothing stands
/// before.
pub proof fn law_a_part_stands_between_the_rest(hay: Seq<char>, needle: Seq<char>)
    ensures
        contains_text(hay, needle) <==> exists|before: Seq<char>, behind: Seq<char>|
            hay == #[trigger] ((before + needle) + behind),
        starts_with_text(hay, needle) <==> hay.len() >= needle.len() && hay.take(
            needle.len() as int,
        ) == needle,
{
    if contains_text(hay, needle) {
        let at = choose|at: int| occurs_at(hay, needle, at);
        let before = hay.take(at);
        let behind = hay.skip(at + needle.len());
        assert forall|i: int| 0 <= i < hay.len() implies hay[i] == ((before + needle)
            + behind)[i] by {
            if at <= i < at + needle.len() {
                assert(hay[at + (i - at)] == needle[i - at]);
            }
        }
        assert(hay =~= (before + needle) + behind);
    }
    if exists|before: Seq<char>, behind: Seq<char>| hay == #[trigger] ((before + needle) + behind) {
        let (before, behind) = choose|before: Seq<char>, behind: Seq<char>|
            hay == #[trigger] ((before + needle) + behind);
        let at = before.len() as int;
        assert forall|k: int| 0 <= k < needle.len() implies hay[at + k] == #[trigger] needle[k] by {}
        assert(occurs_at(hay, needle, at));
    }
    if starts_with_text(hay, needle) {
        assert forall|k: int| 0 <= k < needle.len() implies hay.take(needle.len() as int)[k]
            == needle[k] by {
            assert(hay[0 + k] == needle[k]);
        }
        assert(hay.take(needle.len() as int) =~= needle);
    }
    if hay.len() >= needle.len() && hay.take(needle.len() as int) == needle {
        assert forall|k: int| 0 <= k < needle.len() implies hay[0 + k] == #[trigger] needle[k] by {
            assert(hay.take(needle.len() as int)[k] == needle[k]);
        }
        assert(occurs_at(hay, needle, 0));
    }
}

/// Letter case is that of the twenty-six letters: lowering one gives the small
/// letter as far behind `a` as the capital is behind `A`, raising it gives it
/// back, and nothing else is touched.
pub proof fn law_letter_case(c: char)
    ensures
        'A' <= c && c <= 'Z' ==> {
            &&& 'a' <= ascii_lower(c) && ascii_lower(c) <= 'z'
            &&& ascii_lower(c) as int - 97 == c as int - 65
            &&& ascii_upper(ascii_lower(c)) == c
        },
        !('A' <= c && c <= 'Z') ==> ascii_lower(c) == c,
        !('a' <= c && c <= 'z') ==> ascii_upper(c) == c,
        'a' <= c && c <= 'z' ==> ascii_lower(ascii_upper(c)) == c && ascii_upper(c) != c,
        ascii_alphanumeric(c) <==> ('0' <= c && c <= '9') || ('A' <= ascii_upper(c) && ascii_upper(
            c,
        ) <= 'Z'),
{
}

/// Lowering a text lowers each of its characters and keeps their places.
pub proof fn law_lowering_keeps_places(s: Seq<char>)
    ensures
        lowercase(s).len() == s.len(),
        forall|i: int| 0 <= i < s.len() ==> #[trigger] lowercase(s)[i] == ascii_lower(s[i]),
        lowercase(lowercase(s)) == lowercase(s),
{
    assert(lowercase(lowercase(s)) =~= lowercase(s));
}

/// Nothing but white space.
pub open spec fn is_blank(s: Seq<char>) -> bool {
    forall|i: int| 0 <= i < s.len() ==> is_white_space(#[trigger] s[i])
}

proof fn lemma_trimmed_start(s: Seq<char>)
    ensures
        exists|n: int|
            0 <= n <= s.len() && #[trigger] s.skip(n) == trimmed_start(s) && is_blank(s.take(n)),
        trimmed_start(s).len() > 0 ==> !is_white_space(trimmed_start(s)[0]),
    decreases s.len(),
{
    if s.len() > 0 && is_white_space(s[0]) {
        let rest = s.drop_first();
        lemma_trimmed_start(rest);
        let n = choose|n: int|
            0 <= n <= rest.len() && #[trigger] rest.skip(n) == trimmed_start(rest) && is_blank(
                rest.take(n),
            );
        assert(s.skip(n + 1) =~= rest.skip(n));
        assert forall|i: int| 0 <= i < n + 1 implies is_white_space(
            #[trigger] s.take(n + 1)[i],
        ) by {
            if i > 0 {
                assert(s.take(n + 1)[i] == rest.take(n)[i - 1]);
            }
        }
        assert(is_blank(s.take(n + 1)));
    } else {
        assert(s.skip(0) =~= s);
        assert(is_blank(s.take(0)));
    }
}

proof fn lemma_trimmed_end(s: Seq<char>)
    ensures
        exists|n: int|
            0 <= n <= s.len() && #[trigger] s.take(n) == trimmed_end(s) && is_blank(s.skip(n)),
        trimmed_end(s).len() > 0 ==> !is_white_space(trimmed_end(s).last()),
    decreases s.len(),
{
    if s.len() > 0 && is_white_space(s.last()) {
        let rest = s.drop_last();
        lemma_trimmed_end(rest);
        let n = choose|n: int|
            0 <= n <= rest.len() && #[trigger] rest.take(n) == trimmed_end(rest) && is_blank(
                rest.skip(n),
            );
        assert(s.take(n) =~= rest.take(n));
        assert forall|i: int| 0 <= i < s.len() - n implies is_white_space(
            #[trigger] s.skip(n)[i],
        ) by {
            if i < rest.len() - n {
                assert(s.skip(n)[i] == rest.skip(n)[i]);
            }
        }
        assert(is_blank(s.skip(n)));
    } else {
        assert(s.take(s.len() as int) =~= s);
        assert(is_blank(s.skip(s.len() as int)));
    }
}

/// Trimming takes white space off both ends, all of it and nothing else.
pub proof fn law_trimming_takes_white_space_off_the_ends(s: Seq<char>)
    ensures
        exists|from: int, to: int|
            {
                &&& 0 <= from <= to <= s.len()
                &&& #[trigger] s.subrange(from, to) == trimmed(s)
                &&& is_blank(s.take(from))
                &&& is_blank(s.skip(to))
            },
        trimmed(s).len() > 0 ==> !is_white_space(trimmed(s)[0]) && !is_white_space(
            trimmed(s).last(),
        ),
        trimmed(s).len() == 0 <==> is_blank(s),
{
    let start = trimmed_start(s);
    lemma_trimmed_start(s);
    lemma_trimmed_end(start);
    let from = choose|n: int|
        0 <= n <= s.len() && #[trigger] s.skip(n) == trimmed_start(s) && is_blank(s.take(n));
    let kept = choose|n: int|
        0 <= n <= start.len() && #[trigger] start.take(n) == trimmed_end(start) && is_blank(
            start.skip(n),
        );
    let to = from + kept;
    assert(s.subrange(from, to) =~= start.take(kept));
    assert(s.skip(to) =~= start.skip(kept));
    if trimmed(s).len() > 0 {
        assert(trimmed(s)[0] == start[0]);
    } else {
        assert(from == to);
        assert forall|i: int| 0 <= i < s.len() implies is_white_space(#[trigger] s[i]) by {
            if i < from {
                assert(s.take(from)[i] == s[i]);
            } else {
                assert(s.skip(to)[i - to] == s[i]);
            }
        }
    }
    if is_blank(s) && trimmed(s).len() > 0 {
        assert(s.subrange(from, to)[0] == s[from]);
        assert(is_white_space(s[from]));
    }
}

/// The characters that count as white space.
pub proof fn law_white_space(c: char)
    ensures
        is_white_space(' ') && is_white_space('\n') && is_white_space('\t') && is_white_space('\r'),
        '!' <= c && c <= '~' ==> !is_white_space(c),
{
}

/// Cutting off a trailing character cuts off all of its run and nothing else.
pub proof fn law_trailing_run_is_cut_off(s: Seq<char>, c: char)
    ensures
        without_trailing(s, c).len() <= s.len(),
        s.take(without_trailing(s, c).len() as int) == without_trailing(s, c),
        forall|i: int| without_trailing(s, c).len() <= i < s.len() ==> #[trigger] s[i] == c,
        without_trailing(s, c).len() > 0 ==> without_trailing(s, c).last() != c,
    decreases s.len(),
{
    if s.len() > 0 && s.last() == c {
        law_trailing_run_is_cut_off(s.drop_last(), c);
        let n = without_trailing(s, c).len() as int;
        assert(s.take(n) =~= s.drop_last().take(n));
        assert forall|i: int| n <= i < s.len() implies #[trigger] s[i] == c by {
            if i < s.len() - 1 {
                assert(s.drop_last()[i] == s[i]);
            }
        }
    } else {
        assert(s.take(s.len() as int) =~= s);
    }
}

/// The pieces, with a separator between neighbours.
pub open spec fn joined(pieces: Seq<Seq<char>>, sep: char) -> Seq<char>
    decreases pieces.len(),
{
    if pieces.len() == 0 {
        Seq::empty()
    } else if pieces.len() == 1 {
        pieces[0]
    } else {
        joined(pieces.drop_last(), sep) + seq![sep] + pieces.last()
    }
}

/// `c` is nowhere in `s`.
pub open spec fn lacks(s: Seq<char>, c: char) -> bool {
    forall|i: int| 0 <= i < s.len() ==> #[trigger] s[i] != c
}

/// Splitting a text gives pieces without the separator that make up the text
/// again.
pub proof fn law_pieces_make_up_the_text(s: Seq<char>, sep: char)
    ensures
        split_pieces(s, sep).len() > 0,
        joined(split_pieces(s, sep), sep) == s,
        forall|i: int|
            0 <= i < split_pieces(s, sep).len() ==> lacks(#[trigger] split_pieces(s, sep)[i], sep),
    decreases s.len(),
{
    let pieces = split_pieces(s, sep);
    if s.len() == 0 {
        assert(joined(pieces, sep) =~= s);
    } else {
        let front = s.drop_last();
        let before = split_pieces(front, sep);
        law_pieces_make_up_the_text(front, sep);
        let n = before.len() as int;
        assert(front.push(s.last()) =~= s);
        if s.last() == sep {
            assert(pieces.drop_last() =~= before);
            assert(joined(pieces, sep) =~= s);
            assert forall|i: int| 0 <= i < pieces.len() implies lacks(#[trigger] pieces[i], sep) by {
                if i < n {
                    assert(pieces[i] == before[i]);
                }
            }
        } else {
            assert(lacks(before[n - 1], sep));
            assert forall|i: int| 0 <= i < pieces.len() implies lacks(#[trigger] pieces[i], sep) by {
                if i < n - 1 {
                    assert(pieces[i] == before[i]);
                }
            }
            assert(pieces.drop_last() =~= before.drop_last());
            assert(joined(pieces, sep) =~= s);
        }
    }
}

/// Joining pieces without the separator and splitting them again gives the
/// same pieces.
pub proof fn law_joined_pieces_split_again(pieces: Seq<Seq<char>>, sep: char)
    requires
        pieces.len() > 0,
        forall|i: int| 0 <= i < pieces.len() ==> lacks(#[trigger] pieces[i], sep),
    ensures
        split_pieces(joined(pieces, sep), sep) == pieces,
    decreases pieces.len(), pieces.last().len(),
{
    let s = joined(pieces, sep);
    let last = pieces.last();
    let n = pieces.len() as int;
    assert(last == pieces[n - 1]);
    if last.len() > 0 {
        let shorter = pieces.drop_last().push(last.drop_last());
        assert(shorter.drop_last() =~= pieces.drop_last());
        assert forall|i: int| 0 <= i < shorter.len() implies lacks(#[trigger] shorter[i], sep) by {
            if i < n - 1 {
                assert(shorter[i] == pieces[i]);
            } else {
                assert forall|k: int| 0 <= k < shorter[i].len() implies #[trigger] shorter[i][k]
                    != sep by {
                    assert(last[k] != sep);
                }
            }
        }
        law_joined_pieces_split_again(shorter, sep);
        assert(s.drop_last() =~= joined(shorter, sep)) by {
            if n > 1 {
                assert(joined(pieces, sep) == joined(pieces.drop_last(), sep) + seq![sep] + last);
                assert(joined(shorter, sep) == joined(shorter.drop_last(), sep) + seq![sep]
                    + last.drop_last());
            }
        }
        assert(s.last() == last.last());
        assert(last[last.len() - 1] != sep);
        assert(last.drop_last().push(last.last()) =~= last);
        assert(split_pieces(s, sep) =~= pieces);
    } else if n == 1 {
        assert(s =~= Seq::empty());
        assert(pieces =~= seq![Seq::<char>::empty()]);
    } else {
        let front = pieces.drop_last();
        assert forall|i: int| 0 <= i < front.len() implies lacks(#[trigger] front[i], sep) by {
            assert(front[i] == pieces[i]);
        }
        law_joined_pieces_split_again(front, sep);
        assert(s.drop_last() =~= joined(front, sep));
        assert(s.last() == sep);
        assert(last =~= Seq::empty());
        assert(split_pieces(s, sep) =~= pieces);
    }
}

/// Words joined by a space are the words with a space between neighbours.
pub proof fn law_words_are_joined_by_a_space(parts: Seq<Seq<char>>)
    ensures
        joined_by_space(parts) == joined(parts, ' '),
    decreases parts.len(),
{
    if parts.len() > 1 {
        law_words_are_joined_by_a_space(parts.drop_last());
    }
}

proof fn lemma_word_at(s: Seq<char>)
    ensures
        word_at(s).len() <= s.len(),
        s.take(word_at(s).len() as int) == word_at(s),
        forall|i: int| 0 <= i < word_at(s).len() ==> !is_white_space(#[trigger] word_at(s)[i]),
        word_at(s).len() < s.len() ==> is_white_space(s[word_at(s).len() as int]),
    decreases s.len(),
{
    if s.len() > 0 && !is_white_space(s[0]) {
        let rest = s.drop_first();
        lemma_word_at(rest);
        let n = word_at(rest).len() as int;
        assert(s.take(n + 1) =~= word_at(s)) by {
            assert forall|i: int| 0 <= i < n + 1 implies s.take(n + 1)[i] == word_at(s)[i] by {
                if i > 0 {
                    assert(rest.take(n)[i - 1] == word_at(rest)[i - 1]);
                }
            }
        }
        assert forall|i: int| 0 <= i < word_at(s).len() implies !is_white_space(
            #[trigger] word_at(s)[i],
        ) by {
            if i > 0 {
                assert(word_at(s)[i] == word_at(rest)[i - 1]);
            }
        }
    } else {
        assert(s.take(0) =~= word_at(s));
    }
}

/// The first word of a text stands behind nothing but white space, has none in
/// it, and ends where the text ends or white space begins.
pub proof fn law_first_word(s: Seq<char>)
    ensures
        exists|from: int, to: int|
            {
                &&& 0 <= from <= to <= s.len()
                &&& #[trigger] s.subrange(from, to) == first_word(s)
                &&& is_blank(s.take(from))
                &&& to < s.len() ==> is_white_space(s[to])
            },
        forall|i: int|
            0 <= i < first_word(s).len() ==> !is_white_space(#[trigger] first_word(s)[i]),
        first_word(s).len() == 0 ==> is_blank(s),
{
    let start = trimmed_start(s);
    lemma_trimmed_start(s);
    lemma_word_at(start);
    let from = choose|n: int|
        0 <= n <= s.len() && #[trigger] s.skip(n) == trimmed_start(s) && is_blank(s.take(n));
    let n = word_at(start).len() as int;
    assert(s.subrange(from, from + n) =~= start.take(n));
    if from + n < s.len() {
        assert(start[n] == s[from + n]);
    }
    if n == 0 {
        assert(start.len() == 0);
        assert(s.take(from) =~= s);
    }
}

/// A number is written by its digits, without leading zeros, and a negative
/// one behind a minus sign; a text of digits reads as the number it writes,
/// with or without a plus sign.
pub proof fn law_numbers_are_written_by_their_digits(n: nat)
    ensures
        all_digits(decimal(n)),
        digits_value(decimal(n)) == n,
        decimal(n).len() > 1 ==> decimal(n)[0] != '0',
        signed_decimal(n as int) == decimal(n),
        n > 0 ==> signed_decimal(-n) == seq!['-'] + decimal(n),
        n <= u64::MAX ==> parsed_u64(decimal(n)) == Some(n as u64) && parsed_u64(
            seq!['+'] + decimal(n),
        ) == Some(n as u64),
    decreases n,
{
    lemma_decimal_digits(n);
    law_decimal_read_back(n);
    reveal_strlit("-");
    assert("-"@ =~= seq!['-']);
    assert((seq!['+'] + decimal(n)).drop_first() =~= decimal(n));
    if n >= 10 {
        law_numbers_are_written_by_their_digits(n / 10);
        lemma_decimal_digits(n / 10);
        if n / 10 < 10 {
            assert(decimal(n / 10)[0] == crate::decimal::digit(n / 10));
        } else {
            lemma_decimal_digits(n / 10 / 10);
        }
        assert(decimal(n)[0] == decimal(n / 10)[0]);
    }
}

/// Digits are the ten there are, each behind the one before, and a number with
/// one more digit is ten times as large and the digit more.
pub proof fn law_digits_are_the_ten_digits(n: nat, d: nat)
    requires
        d < 10,
    ensures
        decimal(0) == seq!['0'] && decimal(1) == seq!['1'] && decimal(9) == seq!['9'],
        decimal(d).len() == 1 && decimal(d)[0] as int == '0' as int + d,
        n > 0 ==> decimal(10 * n + d) == decimal(n) + decimal(d),
{
    assert(decimal(0) =~= seq!['0']);
    assert(decimal(1) =~= seq!['1']);
    assert(decimal(9) =~= seq!['9']);
    if n > 0 {
        assert((10 * n + d) / 10 == n && (10 * n + d) % 10 == d);
        assert(decimal(10 * n + d) =~= decimal(n) + decimal(d));
    }
}

/// What is not written in digits, or is too large, is no number.
pub proof fn law_other_text_is_no_number(s: Seq<char>, i: int)
    requires
        s.len() == 0 || s == seq!['+'] || (0 < i < s.len() && !('0' <= s[i] && s[i] <= '9')),
    ensures
        parsed_u64(s) is None,
{
    if s.len() > 0 && s != seq!['+'] {
        if s[0] == '+' {
            assert(s.drop_first()[i - 1] == s[i]);
        }
    } else if s == seq!['+'] {
        assert(s[0] == '+');
        assert(s.drop_first().len() == 0);
    }
}

} // verus!
