//! Base64, the form in which a picture travels inside a JSON text.

use base64::Engine;
use vstd::prelude::*;

verus! {

/// The longest byte string that is encoded here.
pub const MAX_ENCODED_BYTES: usize = 8 * 1024 * 1024;

/// The character of the standard alphabet for `0 <= v < 64`.
pub open spec fn sextet_char(v: int) -> char {
    if v < 26 {
        (65 + v) as char
    } else if v < 52 {
        (71 + v) as char
    } else if v < 62 {
        (v - 4) as char
    } else if v == 62 {
        '+'
    } else {
        '/'
    }
}

/// The byte at `i`; zero past the end.
pub open spec fn byte_or_zero(data: Seq<u8>, i: int) -> int {
    if 0 <= i < data.len() {
        data[i] as int
    } else {
        0
    }
}

/// The six bits that character `i` of the encoding stands for: three bytes
/// make four characters.
pub open spec fn sextet(data: Seq<u8>, i: int) -> int {
    let first = byte_or_zero(data, i / 4 * 3);
    let second = byte_or_zero(data, i / 4 * 3 + 1);
    let third = byte_or_zero(data, i / 4 * 3 + 2);
    if i % 4 == 0 {
        first / 4
    } else if i % 4 == 1 {
        first % 4 * 16 + second / 16
    } else if i % 4 == 2 {
        second % 16 * 4 + third / 64
    } else {
        third % 64
    }
}

/// Character `i` of the encoding stands for no byte.
pub open spec fn is_padding(len: int, i: int) -> bool {
    i % 4 >= 2 && i / 4 * 3 + i % 4 - 1 >= len
}

/// The Base64 text of a byte string: standard alphabet, padded with `=`.
pub open spec fn base64_text(data: Seq<u8>) -> Seq<char> {
    Seq::new(
        ((data.len() + 2) / 3 * 4) as nat,
        |i: int|
            if is_padding(data.len() as int, i) {
                '='
            } else {
                sextet_char(sextet(data, i))
            },
    )
}

/// `base64::engine::general_purpose::STANDARD.encode`: the standard alphabet,
/// padded. A byte string so long that its encoding does not fit in memory
/// makes it panic.
#[verifier::external_body]
pub(crate) fn encode_base64(data: &[u8]) -> (r: String)
    requires
        data@.len() <= MAX_ENCODED_BYTES,
    ensures
        r@ == base64_text(data@),
{
    base64::engine::general_purpose::STANDARD.encode(data)
}

proof fn lemma_sextet_chars_differ(v: int, w: int)
    requires
        0 <= v < 64,
        0 <= w < 64,
        sextet_char(v) == sextet_char(w),
    ensures
        v == w,
{
}

proof fn lemma_sextet_range(data: Seq<u8>, i: int)
    requires
        0 <= i,
    ensures
        0 <= sextet(data, i) < 64,
        sextet_char(sextet(data, i)) != '=',
{
}

proof fn lemma_padding_shows(data: Seq<u8>, i: int)
    requires
        0 <= i < base64_text(data).len(),
    ensures
        (base64_text(data)[i] == '=') == is_padding(data.len() as int, i),
{
    lemma_sextet_range(data, i);
}

/// Nothing is lost in the encoding: different byte strings have different
/// texts.
pub proof fn law_base64_loses_nothing(a: Seq<u8>, b: Seq<u8>)
    requires
        base64_text(a) == base64_text(b),
    ensures
        a == b,
{
    let text = base64_text(a);
    let other = base64_text(b);
    let n = text.len() as int;
    assert(n == (a.len() + 2) / 3 * 4 && n == (b.len() + 2) / 3 * 4);
    // the lengths agree: the padding tells them apart
    if n > 0 {
        lemma_padding_shows(a, n - 1);
        lemma_padding_shows(a, n - 2);
        lemma_padding_shows(b, n - 1);
        lemma_padding_shows(b, n - 2);
        assert(is_padding(a.len() as int, n - 1) == is_padding(b.len() as int, n - 1));
        assert(is_padding(a.len() as int, n - 2) == is_padding(b.len() as int, n - 2));
        assert((n - 1) % 4 == 3 && (n - 2) % 4 == 2);
    }
    assert(a.len() == b.len());
    let len = a.len() as int;
    assert forall|k: int| 0 <= k < len implies a[k] == b[k] by {
        let g = k / 3;
        assert forall|p: int| 0 <= p < 4 && 4 * g + p < n && !is_padding(len, 4 * g + p)
            implies #[trigger] sextet(a, 4 * g + p) == sextet(b, 4 * g + p) by {
            assert(text[4 * g + p] == other[4 * g + p]);
            lemma_sextet_range(a, 4 * g + p);
            lemma_sextet_range(b, 4 * g + p);
            lemma_sextet_chars_differ(sextet(a, 4 * g + p), sextet(b, 4 * g + p));
        }
        let p = k % 3;
        assert(k == 3 * g + p);
        assert((4 * g + p) / 4 == g && (4 * g + p) % 4 == p);
        assert((4 * g + p + 1) / 4 == g && (4 * g + p + 1) % 4 == p + 1);
        assert(sextet(a, 4 * g + p) == sextet(b, 4 * g + p));
        assert(sextet(a, 4 * g + (p + 1)) == sextet(b, 4 * g + (p + 1)));
    }
    assert(a =~= b);
}

} // verus!
