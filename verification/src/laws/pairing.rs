//! A code is shown to be typed, and a token to be kept.

use vstd::prelude::*;

use crate::pairing::{
    are_drawn_indices, booth_after_pair, codes_match, hex_text, is_code, is_code_char,
    is_drawn_after, is_drawn_code, is_drawn_token, is_token, moved_on, normalized, rotated_code,
    sha256, spelled_code, stored_hash, BoothView, Capability, CODE_ALPHABET,
};
use crate::readings::{are_drawn_bytes, is_drawn_index};
use crate::session::is_hex_digit;
use crate::text::{ascii_alphanumeric, ascii_upper};

verus! {

/// The letters and digits of codes are the capitals and digits that are not
/// mistaken for one another: neither `I` nor `O`, neither `0` nor `1`.
pub proof fn law_codes_have_no_look_alikes(c: char)
    ensures
        is_code_char(c) <==> {
            ||| 'A' <= c && c <= 'Z' && c != 'I' && c != 'O'
            ||| '2' <= c && c <= '9'
        },
{
    let letters = CODE_ALPHABET@;
    assert(letters[0] == 'A' && letters[1] == 'B' && letters[2] == 'C' && letters[3] == 'D'
        && letters[4] == 'E' && letters[5] == 'F' && letters[6] == 'G' && letters[7] == 'H'
        && letters[8] == 'J' && letters[9] == 'K' && letters[10] == 'L' && letters[11] == 'M'
        && letters[12] == 'N' && letters[13] == 'P' && letters[14] == 'Q' && letters[15] == 'R'
        && letters[16] == 'S' && letters[17] == 'T' && letters[18] == 'U' && letters[19] == 'V'
        && letters[20] == 'W' && letters[21] == 'X' && letters[22] == 'Y' && letters[23] == 'Z');
    assert(letters[24] == '2' && letters[25] == '3' && letters[26] == '4' && letters[27] == '5'
        && letters[28] == '6' && letters[29] == '7' && letters[30] == '8' && letters[31] == '9');
    assert(letters.len() == 32);
}

/// Drawn indices are all told apart by the codes they spell.
pub proof fn law_different_draws_are_different_codes(a: Seq<usize>, b: Seq<usize>)
    requires
        a.len() == 8,
        b.len() == 8,
        forall|i: int| 0 <= i < 8 ==> #[trigger] a[i] < 32,
        forall|i: int| 0 <= i < 8 ==> #[trigger] b[i] < 32,
        spelled_code(a) == spelled_code(b),
    ensures
        a == b,
{
    let x = spelled_code(a);
    let y = spelled_code(b);
    assert forall|i: int| 0 <= i < 8 implies a[i] == b[i] by {
        let at = if i < 4 {
            i
        } else {
            i + 1
        };
        assert(x[at] == CODE_ALPHABET@[a[i] as int]);
        assert(y[at] == CODE_ALPHABET@[b[i] as int]);
        assert(a[i] < 32 && b[i] < 32);
        lemma_letters_differ(a[i] as int, b[i] as int);
    }
    assert(a =~= b);
}

proof fn lemma_letters_differ(i: int, k: int)
    requires
        0 <= i < 32,
        0 <= k < 32,
        CODE_ALPHABET@[i] == CODE_ALPHABET@[k],
    ensures
        i == k,
{
}

/// Two codes match exactly where they have the same letters and digits in the
/// same order, whatever their case and whatever stands between them.
pub proof fn law_codes_match_by_letters_and_digits(expected: Seq<char>, presented: Seq<char>, c: char)
    ensures
        codes_match(expected, expected),
        codes_match(expected, presented) == codes_match(presented, expected),
        ascii_alphanumeric(c) ==> !codes_match(expected, expected.push(c)),
        !ascii_alphanumeric(c) ==> codes_match(expected, expected.push(c)),
        ascii_alphanumeric(c) ==> codes_match(expected.push(c), expected.push(ascii_upper(c))),
{
    assert(expected.push(c).drop_last() =~= expected);
    assert(expected.push(ascii_upper(c)).drop_last() =~= expected);
    if ascii_alphanumeric(c) {
        assert(normalized(expected.push(c)).len() == normalized(expected).len() + 1);
        assert(ascii_alphanumeric(ascii_upper(c)) && ascii_upper(ascii_upper(c)) == ascii_upper(c));
    }
}

/// What is compared of a code has only capitals and digits in it, and as many
/// as the code has letters and digits; last letters that differ, differ.
pub proof fn law_different_letters_do_not_match(code: Seq<char>, a: char, b: char)
    requires
        ascii_alphanumeric(a),
        ascii_alphanumeric(b),
        ascii_upper(a) != ascii_upper(b),
    ensures
        !codes_match(code.push(a), code.push(b)),
{
    assert(code.push(a).drop_last() =~= code);
    assert(code.push(b).drop_last() =~= code);
    assert(normalized(code.push(a)).last() == ascii_upper(a));
    assert(normalized(code.push(b)).last() == ascii_upper(b));
}

/// A token that was handed out is kept as the digest of its bytes, in
/// hexadecimal, with both capabilities; and the code is replaced.
pub proof fn law_tokens_are_kept_as_digests(
    booth: BoothView,
    token: Seq<char>,
    next_code: Seq<char>,
)
    ensures
        ({
            let after = booth_after_pair(booth, token, next_code);
            let last = after.tokens.last();
            &&& after.code == next_code
            &&& after.tokens.len() == booth.tokens.len() + 1
            &&& after.tokens.drop_last() == booth.tokens
            &&& last.token_hash == hex_text(sha256(vstd::utf8::encode_utf8(token)))
            &&& last.capabilities.contains(Capability::Operator)
            &&& last.capabilities.contains(Capability::Lease)
            &&& last.token_hash == stored_hash(token)
        }),
{
    let after = booth_after_pair(booth, token, next_code);
    assert(after.tokens.drop_last() =~= booth.tokens);
    let both = after.tokens.last().capabilities;
    assert(both[0] == Capability::Operator || both[1] == Capability::Operator);
    assert(both[0] == Capability::Lease || both[1] == Capability::Lease);
}

/// Hexadecimal text has two digits for every byte, from which the byte can be
/// read: the first counts sixteens, the second ones.
pub proof fn law_hexadecimal_reads_back(bytes: Seq<u8>, i: int)
    requires
        0 <= i < bytes.len(),
    ensures
        hex_text(bytes).len() == 2 * bytes.len(),
        hex_value(hex_text(bytes)[2 * i]) * 16 + hex_value(hex_text(bytes)[2 * i + 1]) == bytes[i],
        is_hex_digit(hex_text(bytes)[2 * i]) && is_hex_digit(hex_text(bytes)[2 * i + 1]),
{
    let b = bytes[i] as int;
    assert((2 * i) / 2 == i && (2 * i) % 2 == 0);
    assert((2 * i + 1) / 2 == i && (2 * i + 1) % 2 == 1);
    assert(0 <= b / 16 < 16 && 0 <= b % 16 < 16);
}

/// What a lower-case hexadecimal digit counts.
pub open spec fn hex_value(c: char) -> int {
    if '0' <= c && c <= '9' {
        c as int - 48
    } else {
        c as int - 97 + 10
    }
}

/// A code is eight letters or digits with a dash in the middle, and a token
/// sixty-four hexadecimal digits.
pub proof fn law_codes_and_tokens_have_their_form(code: Seq<char>, token: Seq<char>)
    ensures
        is_code(code) ==> code.len() == 9 && code[4] == '-' && normalized(code).len() == 8,
        is_token(token) ==> token.len() == 64 && forall|i: int|
            0 <= i < 64 ==> is_hex_digit(#[trigger] token[i]),
{
    if is_code(code) {
        lemma_code_counts(code, 9);
        assert(code.take(9) =~= code);
    }
}

proof fn lemma_code_counts(code: Seq<char>, n: int)
    requires
        is_code(code),
        0 <= n <= 9,
    ensures
        normalized(code.take(n)).len() == if n <= 4 {
            n
        } else {
            n - 1
        },
    decreases n,
{
    if n > 0 {
        lemma_code_counts(code, n - 1);
        let c = code[n - 1];
        assert(code.take(n).drop_last() =~= code.take(n - 1));
        assert(code.take(n).last() == c);
        if n - 1 != 4 {
            assert(is_code_char(code[n - 1]));
            law_codes_have_no_look_alikes(c);
        }
    }
}

/// A token that was drawn spells bytes that were drawn, and a code that was
/// drawn spells indices that were drawn; the code that takes the place of
/// another is the drawn one, unless that would be the same code again.
pub proof fn law_tokens_and_codes_are_drawn(token: Seq<char>, before: Seq<char>, code: Seq<char>)
    ensures
        is_drawn_token(token) ==> exists|bytes: Seq<u8>| #[trigger]
            are_drawn_bytes(bytes) && hex_text(bytes) == token,
        is_drawn_code(code) ==> exists|indices: Seq<usize>|
            indices.len() == 8 && #[trigger] spelled_code(indices) == code && forall|i: int|
                0 <= i < 8 ==> is_drawn_index(#[trigger] indices[i], 32),
        is_drawn_after(before, code) ==> exists|indices: Seq<usize>|
            {
                &&& indices.len() == 8
                &&& forall|i: int| 0 <= i < 8 ==> is_drawn_index(#[trigger] indices[i], 32)
                &&& !codes_match(before, spelled_code(indices)) ==> code == #[trigger] spelled_code(
                    indices,
                )
                &&& codes_match(before, spelled_code(indices)) ==> code.skip(1) == spelled_code(
                    indices,
                ).skip(1) && code[0] == CODE_ALPHABET@[(indices[0] + 1) % 32]
            },
{
    if is_drawn_token(token) {
        let bytes = choose|bytes: Seq<u8>| #[trigger]
            are_drawn_bytes(bytes) && token == hex_text(bytes);
        assert(are_drawn_bytes(bytes) && hex_text(bytes) == token);
    }
    if is_drawn_code(code) {
        let indices = choose|indices: Seq<usize>| #[trigger]
            are_drawn_indices(indices) && code == spelled_code(indices);
        assert(spelled_code(indices) == code);
    }
    if is_drawn_after(before, code) {
        let indices = choose|indices: Seq<usize>| #[trigger]
            are_drawn_indices(indices) && code == rotated_code(before, indices);
        let drawn = spelled_code(indices);
        if codes_match(before, drawn) {
            assert(code == spelled_code(moved_on(indices)));
            assert(code.skip(1) =~= drawn.skip(1));
        }
    }
}

} // verus!
