//! Capability-based pairing tokens.
//!
//! A short pairing code is printed on node start and is only revealed over
//! loopback (`GET /v1/pairing`). `POST /v1/pair` exchanges the code for a
//! bearer token. The token is hashed at rest on the node. Secrets never enter
//! the guest.

use rand::Rng;
use sha2::Digest;
use vstd::prelude::*;

use crate::readings::{are_drawn_bytes, is_drawn_index};
use crate::session::{all_hex, is_hex_digit};
use crate::text::{alphanumeric, ascii_alphanumeric, ascii_upper, chars_of, same, upper_char};

verus! {

/// Letters and digits of a pairing code. The look-alikes `I`, `O`, `0` and
/// `1` are left out.
pub const CODE_ALPHABET: [char; 32] = [
    'A',
    'B',
    'C',
    'D',
    'E',
    'F',
    'G',
    'H',
    'J',
    'K',
    'L',
    'M',
    'N',
    'P',
    'Q',
    'R',
    'S',
    'T',
    'U',
    'V',
    'W',
    'X',
    'Y',
    'Z',
    '2',
    '3',
    '4',
    '5',
    '6',
    '7',
    '8',
    '9',
];

/// Capabilities a paired client may exercise.
#[derive(Debug, Clone, Copy, PartialEq, Eq, Structural)]
pub enum Capability {
    /// Park / unpark, read pairing state.
    Operator,
    /// Create and end leases.
    Lease,
}

/// A stored pairing. The raw token is not kept.
#[derive(Debug, PartialEq, Eq)]
pub struct IssuedToken {
    /// SHA-256 hex of the bearer token.
    pub token_hash: String,
    /// Capabilities granted at pair time.
    pub capabilities: Vec<Capability>,
}

/// A stored pairing with its text.
pub struct IssuedView {
    /// SHA-256 hex of the bearer token.
    pub token_hash: Seq<char>,
    /// Capabilities granted at pair time.
    pub capabilities: Seq<Capability>,
}

impl View for IssuedToken {
    type V = IssuedView;

    open spec fn view(&self) -> IssuedView {
        IssuedView { token_hash: self.token_hash@, capabilities: self.capabilities@ }
    }
}

/// Live pairing booth on the node.
#[derive(Debug)]
pub struct PairingBooth {
    /// Current code (`XXXX-XXXX`). Rotates after a successful pair.
    pub code: String,
    /// Issued tokens (hashed).
    pub tokens: Vec<IssuedToken>,
}

/// A pairing booth with its texts.
pub struct BoothView {
    /// Current code.
    pub code: Seq<char>,
    /// Issued tokens (hashed).
    pub tokens: Seq<IssuedView>,
}

impl View for PairingBooth {
    type V = BoothView;

    open spec fn view(&self) -> BoothView {
        BoothView { code: self.code@, tokens: issued_views(self.tokens@) }
    }
}

/// The views of a list of issued tokens.
pub open spec fn issued_views(tokens: Seq<IssuedToken>) -> Seq<IssuedView> {
    tokens.map_values(|t: IssuedToken| t@)
}

/// Pairing failures.
#[derive(Debug, Clone, Copy, PartialEq, Eq, Structural)]
pub enum PairError {
    /// Code mismatch.
    BadCode,
    /// Token not on this node.
    UnknownToken,
    /// Token lacks the capability.
    MissingCapability(Capability),
}

/// Text of a pairing failure.
pub open spec fn pair_error_text(e: PairError) -> Seq<char> {
    match e {
        PairError::BadCode => "pairing code rejected"@,
        PairError::UnknownToken => "unknown pairing token"@,
        PairError::MissingCapability(
            Capability::Operator,
        ) => "token missing capability Operator"@,
        PairError::MissingCapability(Capability::Lease) => "token missing capability Lease"@,
    }
}

impl PairError {
    /// Human-readable reason.
    pub fn message(&self) -> (r: String)
        ensures
            r@ == pair_error_text(*self),
    {
        match self {
            PairError::BadCode => "pairing code rejected".to_string(),
            PairError::UnknownToken => "unknown pairing token".to_string(),
            PairError::MissingCapability(need) => match need {
                Capability::Operator => "token missing capability Operator".to_string(),
                Capability::Lease => "token missing capability Lease".to_string(),
            },
        }
    }
}

/// The lower-case hexadecimal digit for `0 <= d < 16`.
pub open spec fn hex_digit(d: int) -> char {
    if d < 10 {
        (48 + d) as char
    } else {
        (87 + d) as char
    }
}

/// Two lower-case hexadecimal digits for every byte, the high one first.
pub open spec fn hex_text(bytes: Seq<u8>) -> Seq<char> {
    Seq::new(
        2 * bytes.len(),
        |i: int|
            hex_digit(
                if i % 2 == 0 {
                    bytes[i / 2] as int / 16
                } else {
                    bytes[i / 2] as int % 16
                },
            ),
    )
}

/// The SHA-256 digest of a message.
pub uninterp spec fn sha256(message: Seq<u8>) -> Seq<u8>;

/// What the node keeps of a bearer token: the digest of its UTF-8 bytes, in
/// hexadecimal.
pub open spec fn stored_hash(token: Seq<char>) -> Seq<char> {
    hex_text(sha256(vstd::utf8::encode_utf8(token)))
}

/// What two codes are compared by: their ASCII letters and digits, in upper
/// case.
pub open spec fn normalized(code: Seq<char>) -> Seq<char>
    decreases code.len(),
{
    if code.len() == 0 {
        Seq::empty()
    } else {
        let before = normalized(code.drop_last());
        if ascii_alphanumeric(code.last()) {
            before.push(ascii_upper(code.last()))
        } else {
            before
        }
    }
}

/// `presented` stands for the same code as `expected`.
pub open spec fn codes_match(expected: Seq<char>, presented: Seq<char>) -> bool {
    normalized(expected) == normalized(presented)
}

/// A letter or digit of a pairing code.
pub open spec fn is_code_char(c: char) -> bool {
    CODE_ALPHABET@.contains(c)
}

/// `XXXX-XXXX` over the alphabet of codes.
pub open spec fn is_code(s: Seq<char>) -> bool {
    &&& s.len() == 9
    &&& s[4] == '-'
    &&& forall|i: int| 0 <= i < 9 && i != 4 ==> is_code_char(#[trigger] s[i])
}

/// Indices into the alphabet of codes.
pub open spec fn are_code_indices(indices: Seq<usize>) -> bool {
    forall|i: int| 0 <= i < indices.len() ==> #[trigger] indices[i] < 32
}

/// The code that eight indices into the alphabet spell.
pub open spec fn spelled_code(indices: Seq<usize>) -> Seq<char> {
    seq![
        CODE_ALPHABET@[indices[0] as int],
        CODE_ALPHABET@[indices[1] as int],
        CODE_ALPHABET@[indices[2] as int],
        CODE_ALPHABET@[indices[3] as int],
        '-',
        CODE_ALPHABET@[indices[4] as int],
        CODE_ALPHABET@[indices[5] as int],
        CODE_ALPHABET@[indices[6] as int],
        CODE_ALPHABET@[indices[7] as int],
    ]
}

/// A bearer token: sixty-four hexadecimal digits.
pub open spec fn is_token(s: Seq<char>) -> bool {
    s.len() == 64 && all_hex(s)
}

/// The first stored pairing with this hash.
pub open spec fn first_issued(tokens: Seq<IssuedView>, hash: Seq<char>) -> Option<IssuedView>
    decreases tokens.len(),
{
    if tokens.len() == 0 {
        None
    } else {
        match first_issued(tokens.drop_last(), hash) {
            Some(issued) => Some(issued),
            None => if tokens.last().token_hash == hash {
                Some(tokens.last())
            } else {
                None
            },
        }
    }
}

/// Why a token may not be used for `need`, if it may not.
pub open spec fn denial(booth: BoothView, token: Seq<char>, need: Capability) -> Option<
    PairError,
> {
    denial_of_hash(booth, stored_hash(token), need)
}

/// Why a token with this hash may not be used for `need`, if it may not.
pub open spec fn denial_of_hash(
    booth: BoothView,
    hash: Seq<char>,
    need: Capability,
) -> Option<PairError> {
    match first_issued(booth.tokens, hash) {
        None => Some(PairError::UnknownToken),
        Some(issued) => if issued.capabilities.contains(need) {
            None
        } else {
            Some(PairError::MissingCapability(need))
        },
    }
}

/// The booth after `token` was handed out and the code replaced.
pub open spec fn booth_after_pair(
    booth: BoothView,
    token: Seq<char>,
    next_code: Seq<char>,
) -> BoothView {
    booth_after_hash(booth, stored_hash(token), next_code)
}

/// The booth after a token with this hash was handed out and the code
/// replaced.
pub open spec fn booth_after_hash(
    booth: BoothView,
    hash: Seq<char>,
    next_code: Seq<char>,
) -> BoothView {
    BoothView {
        code: next_code,
        tokens: booth.tokens.push(
            IssuedView {
                token_hash: hash,
                capabilities: seq![Capability::Operator, Capability::Lease],
            },
        ),
    }
}

/// Every token that the booth has issued carries every capability.
pub open spec fn grants_everything(booth: BoothView) -> bool {
    forall|i: int|
        #![trigger booth.tokens[i]]
        0 <= i < booth.tokens.len() ==> booth.tokens[i].capabilities.contains(
            Capability::Operator,
        ) && booth.tokens[i].capabilities.contains(Capability::Lease)
}

/// `rand::thread_rng().gen_range(0..n)`: some index below `n`, by chance.
#[verifier::external_body]
fn random_index(n: usize) -> (r: usize)
    requires
        n > 0,
    ensures
        r < n,
        is_drawn_index(r, n),
{
    rand::thread_rng().gen_range(0..n)
}

/// `rand::thread_rng().fill`: thirty-two bytes by chance, of which nothing
/// can be said but that they were drawn.
#[verifier::external_body]
fn random_bytes() -> (r: [u8; 32])
    ensures
        are_drawn_bytes(r@),
{
    let mut bytes = [0u8; 32];
    rand::thread_rng().fill(&mut bytes);
    bytes
}

/// `hex::encode`: two lower-case hexadecimal digits for every byte, the high
/// one first.
#[verifier::external_body]
fn hex_encode(bytes: &[u8; 32]) -> (r: String)
    ensures
        r@ == hex_text(bytes@),
{
    hex::encode(bytes)
}

/// `sha2::Sha256::digest`: the digest is a function of the message alone, and
/// thirty-two bytes long. What it is on a given message is not stated.
#[verifier::external_body]
fn sha256_digest(message: &[u8]) -> (r: [u8; 32])
    ensures
        r@ == sha256(message@),
{
    sha2::Sha256::digest(message).into()
}

proof fn lemma_hex_text_is_hex(bytes: Seq<u8>)
    ensures
        all_hex(hex_text(bytes)),
{
    let text = hex_text(bytes);
    assert forall|i: int| 0 <= i < text.len() implies is_hex_digit(#[trigger] text[i]) by {
        let byte = bytes[i / 2] as int;
        assert(0 <= byte / 16 < 16 && 0 <= byte % 16 < 16);
    }
}

/// The code that eight indices into the alphabet spell.
pub fn code_from_indices(indices: &[usize; 8]) -> (r: String)
    requires
        are_code_indices(indices@),
    ensures
        r@ == spelled_code(indices@),
        is_code(r@),
{
    let mut code = String::new();
    let mut i: usize = 0;
    let ghost spelled = spelled_code(indices@);
    while i < 8
        invariant
            i <= 8,
            are_code_indices(indices@),
            spelled == spelled_code(indices@),
            code@ == if i <= 4 {
                spelled.take(i as int)
            } else {
                spelled.take(i + 1)
            },
        decreases 8 - i,
    {
        if i == 4 {
            code.push('-');
            assert(code@ =~= spelled.take(5));
        }
        let index: usize = indices[i];
        assert(indices@[i as int] < 32);
        code.push(CODE_ALPHABET[index]);
        i += 1;
        assert(code@ =~= if i <= 4 {
            spelled.take(i as int)
        } else {
            spelled.take(i + 1)
        });
    }
    assert(code@ =~= spelled);
    assert forall|k: int| 0 <= k < 9 && k != 4 implies is_code_char(#[trigger] spelled[k]) by {
        let at = if k < 4 {
            k
        } else {
            k - 1
        };
        assert(indices@[at] < 32);
        assert(CODE_ALPHABET@[indices@[at] as int] == spelled[k]);
    }
    code
}

/// Every index was drawn from the whole alphabet.
pub open spec fn are_drawn_indices(indices: Seq<usize>) -> bool {
    &&& indices.len() == 8
    &&& forall|i: int| 0 <= i < 8 ==> is_drawn_index(#[trigger] indices[i], 32)
}

/// Eight drawn indices spell `code`.
pub open spec fn is_drawn_code(code: Seq<char>) -> bool {
    exists|indices: Seq<usize>| #[trigger]
        are_drawn_indices(indices) && code == spelled_code(indices)
}

/// Eight drawn indices gave `code`, in the place of `before`.
pub open spec fn is_drawn_after(before: Seq<char>, code: Seq<char>) -> bool {
    exists|indices: Seq<usize>| #[trigger]
        are_drawn_indices(indices) && code == rotated_code(before, indices)
}

/// Thirty-two drawn bytes spell `token`.
pub open spec fn is_drawn_token(token: Seq<char>) -> bool {
    exists|bytes: Seq<u8>| #[trigger] are_drawn_bytes(bytes) && token == hex_text(bytes)
}

fn random_indices() -> (r: [usize; 8])
    ensures
        are_code_indices(r@),
        are_drawn_indices(r@),
{
    let n: usize = 32;
    [
        random_index(n),
        random_index(n),
        random_index(n),
        random_index(n),
        random_index(n),
        random_index(n),
        random_index(n),
        random_index(n),
    ]
}

fn generate_code() -> (r: String)
    ensures
        is_code(r@),
        is_drawn_code(r@),
{
    let indices = random_indices();
    let r = code_from_indices(&indices);
    assert(are_drawn_indices(indices@) && r@ == spelled_code(indices@));
    r
}

/// The indices with the first one moved on to the next letter.
pub open spec fn moved_on(indices: Seq<usize>) -> Seq<usize> {
    indices.update(0, ((indices[0] + 1) % 32) as usize)
}

/// The code that takes the place of `code`: the one that the indices spell, or
/// with its first letter moved on where that would be the same code again.
pub open spec fn rotated_code(code: Seq<char>, indices: Seq<usize>) -> Seq<char> {
    if codes_match(code, spelled_code(indices)) {
        spelled_code(moved_on(indices))
    } else {
        spelled_code(indices)
    }
}

/// The code that takes the place of `code`, eight indices into the alphabet
/// having been drawn for it. It is never the same code again.
pub fn next_code(code: &str, indices: &[usize; 8]) -> (r: String)
    requires
        are_code_indices(indices@),
    ensures
        r@ == rotated_code(code@, indices@),
        is_code(r@),
        !codes_match(code@, r@),
{
    let drawn = code_from_indices(indices);
    if !codes_equal(code, drawn.as_str()) {
        return drawn;
    }
    let first: usize = (indices[0] + 1) % 32;
    let others: [usize; 8] = [
        first,
        indices[1],
        indices[2],
        indices[3],
        indices[4],
        indices[5],
        indices[6],
        indices[7],
    ];
    assert(others@ =~= moved_on(indices@));
    proof {
        lemma_first_letter(indices@);
        lemma_first_letter(others@);
        lemma_letters_differ(indices@[0] as int, first as int);
    }
    code_from_indices(&others)
}

/// A code begins, as it is compared, with its first letter.
proof fn lemma_first_letter(indices: Seq<usize>)
    requires
        indices.len() == 8,
        are_code_indices(indices),
    ensures
        normalized(spelled_code(indices)).len() > 0,
        normalized(spelled_code(indices))[0] == CODE_ALPHABET@[indices[0] as int],
{
    let code = spelled_code(indices);
    let first = CODE_ALPHABET@[indices[0] as int];
    assert(indices[0] < 32);
    assert(code =~= seq![first] + code.skip(1));
    lemma_normalized_concat(seq![first], code.skip(1));
    reveal_with_fuel(normalized, 2);
    assert(seq![first].drop_last() =~= Seq::empty());
    lemma_letters_are_normal(indices[0] as int);
    assert(normalized(seq![first]) =~= seq![first]);
}

/// The letters of codes are upper-case letters and digits already.
proof fn lemma_letters_are_normal(i: int)
    requires
        0 <= i < 32,
    ensures
        ascii_alphanumeric(CODE_ALPHABET@[i]),
        ascii_upper(CODE_ALPHABET@[i]) == CODE_ALPHABET@[i],
{
}

/// No letter of codes stands beside itself, round the end of the alphabet.
proof fn lemma_letters_differ(i: int, next: int)
    requires
        0 <= i < 32,
        next == (i + 1) % 32,
    ensures
        CODE_ALPHABET@[i] != CODE_ALPHABET@[next],
{
}

fn generate_token() -> (r: String)
    ensures
        is_token(r@),
        is_drawn_token(r@),
{
    let bytes = random_bytes();
    let r = token_from_bytes(&bytes);
    assert(are_drawn_bytes(bytes@) && r@ == hex_text(bytes@));
    r
}

/// The token that thirty-two bytes spell in hexadecimal.
pub fn token_from_bytes(bytes: &[u8; 32]) -> (r: String)
    ensures
        r@ == hex_text(bytes@),
        is_token(r@),
{
    proof {
        lemma_hex_text_is_hex(bytes@);
    }
    hex_encode(bytes)
}

fn hash_token(token: &str) -> (r: String)
    ensures
        r@ == stored_hash(token@),
{
    hex_encode(&sha256_digest(token.as_bytes()))
}

fn normalize(code: &str) -> (r: String)
    ensures
        r@ == normalized(code@),
{
    let chars = chars_of(code);
    let mut r = String::new();
    let mut i: usize = 0;
    assert(code@.take(0) =~= Seq::empty());
    while i < chars.len()
        invariant
            chars@ == code@,
            i <= chars@.len(),
            r@ == normalized(code@.take(i as int)),
        decreases chars@.len() - i,
    {
        assert(code@.take(i + 1).drop_last() =~= code@.take(i as int));
        let c = chars[i];
        if alphanumeric(c) {
            r.push(upper_char(c));
        }
        i += 1;
    }
    assert(code@.take(i as int) =~= code@);
    r
}

/// Codes are compared by their ASCII letters and digits, whatever the case.
pub fn codes_equal(expected: &str, presented: &str) -> (r: bool)
    ensures
        r == codes_match(expected@, presented@),
{
    same(normalize(expected).as_str(), normalize(presented).as_str())
}

fn carries(capabilities: &Vec<Capability>, need: Capability) -> (r: bool)
    ensures
        r == capabilities@.contains(need),
{
    let mut i: usize = 0;
    while i < capabilities.len()
        invariant
            i <= capabilities@.len(),
            forall|k: int| 0 <= k < i ==> capabilities@[k] != need,
        decreases capabilities@.len() - i,
    {
        if capabilities[i] == need {
            return true;
        }
        i += 1;
    }
    false
}

impl PairingBooth {
    /// New booth with a fresh code and no tokens.
    pub fn new() -> (r: PairingBooth)
        ensures
            is_code(r@.code),
            is_drawn_code(r@.code),
            r@.tokens == Seq::<IssuedView>::empty(),
            grants_everything(r@),
    {
        let r = PairingBooth { code: generate_code(), tokens: Vec::new() };
        assert(r@.tokens =~= Seq::empty());
        r
    }

    /// Exchange a code for a bearer token. Default grants operator + lease
    /// so the same client can park and `berth up`. The code is used up.
    pub fn pair(&mut self, presented: &str) -> (r: Result<String, PairError>)
        ensures
            match r {
                Ok(token) => {
                    &&& codes_match(old(self).code@, presented@)
                    &&& is_token(token@)
                    &&& is_drawn_token(token@)
                    &&& is_code(final(self)@.code)
                    &&& is_drawn_after(old(self)@.code, final(self)@.code)
                    &&& !codes_match(old(self)@.code, final(self)@.code)
                    &&& final(self)@ == booth_after_pair(
                        old(self)@,
                        token@,
                        final(self)@.code,
                    )
                },
                Err(e) => {
                    &&& !codes_match(old(self).code@, presented@)
                    &&& e == PairError::BadCode
                    &&& *final(self) == *old(self)
                },
            },
    {
        if !codes_equal(self.code.as_str(), presented) {
            return Err(PairError::BadCode);
        }
        let token = generate_token();
        let indices = random_indices();
        let code = next_code(self.code.as_str(), &indices);
        assert(are_drawn_indices(indices@) && code@ == rotated_code(self.code@, indices@));
        self.record(token.as_str(), code);
        Ok(token)
    }

    /// Note that `token` was handed out, and show `next_code` from now on.
    pub fn record(&mut self, token: &str, next_code: String)
        ensures
            final(self)@ == booth_after_pair(old(self)@, token@, next_code@),
    {
        self.record_hash(hash_token(token), next_code);
    }

    /// Note that a token with this hash was handed out, and show `next_code`
    /// from now on.
    pub fn record_hash(&mut self, token_hash: String, next_code: String)
        ensures
            final(self)@ == booth_after_hash(old(self)@, token_hash@, next_code@),
    {
        let issued = IssuedToken {
            token_hash,
            capabilities: vec![Capability::Operator, Capability::Lease],
        };
        assert(issued.capabilities@ =~= seq![Capability::Operator, Capability::Lease]);
        self.tokens.push(issued);
        assert(issued_views(self.tokens@) =~= issued_views(old(self).tokens@).push(issued@));
        self.code = next_code;
    }

    /// Look up a presented bearer token.
    pub fn authorize(&self, token: &str, need: Capability) -> (r: Result<(), PairError>)
        ensures
            match r {
                Ok(_) => denial(self@, token@, need) is None,
                Err(e) => denial(self@, token@, need) == Some(e),
            },
    {
        self.authorize_hash(hash_token(token).as_str(), need)
    }

    /// Look up a token by its hash.
    pub fn authorize_hash(&self, hash: &str, need: Capability) -> (r: Result<(), PairError>)
        ensures
            match r {
                Ok(_) => denial_of_hash(self@, hash@, need) is None,
                Err(e) => denial_of_hash(self@, hash@, need) == Some(e),
            },
    {
        let ghost issued = self@.tokens;
        let mut i: usize = 0;
        assert(issued.take(0) =~= Seq::empty());
        while i < self.tokens.len()
            invariant
                issued == issued_views(self.tokens@),
                i <= self.tokens@.len(),
                first_issued(issued.take(i as int), hash@) is None,
            decreases self.tokens@.len() - i,
        {
            assert(issued.take(i + 1).drop_last() =~= issued.take(i as int));
            if same(self.tokens[i].token_hash.as_str(), hash) {
                proof {
                    lemma_first_issued_stays(issued, i + 1, hash@);
                }
                if carries(&self.tokens[i].capabilities, need) {
                    return Ok(());
                } else {
                    return Err(PairError::MissingCapability(need));
                }
            }
            i += 1;
        }
        assert(issued.take(i as int) =~= issued);
        Err(PairError::UnknownToken)
    }
}

impl Default for PairingBooth {
    fn default() -> (r: PairingBooth)
        ensures
            is_code(r@.code),
            is_drawn_code(r@.code),
            r@.tokens == Seq::<IssuedView>::empty(),
    {
        PairingBooth::new()
    }
}

/// A pairing found in the first tokens is the one found in all of them.
proof fn lemma_first_issued_stays(tokens: Seq<IssuedView>, n: int, hash: Seq<char>)
    requires
        0 <= n <= tokens.len(),
        first_issued(tokens.take(n), hash) is Some,
    ensures
        first_issued(tokens, hash) == first_issued(tokens.take(n), hash),
    decreases tokens.len() - n,
{
    if n < tokens.len() {
        assert(tokens.take(n + 1).drop_last() =~= tokens.take(n));
        lemma_first_issued_stays(tokens, n + 1, hash);
    } else {
        assert(tokens.take(n) =~= tokens);
    }
}

/// What is found has the hash that was looked for and is one of the tokens.
proof fn lemma_first_issued_is_issued(tokens: Seq<IssuedView>, hash: Seq<char>)
    ensures
        first_issued(tokens, hash) matches Some(issued) ==> issued.token_hash == hash
            && tokens.contains(issued),
    decreases tokens.len(),
{
    if tokens.len() > 0 {
        let front = tokens.drop_last();
        lemma_first_issued_is_issued(front, hash);
        match first_issued(front, hash) {
            Some(issued) => {
                let i = choose|i: int| 0 <= i < front.len() && front[i] == issued;
                assert(tokens[i] == issued);
            },
            None => {
                assert(tokens[tokens.len() - 1] == tokens.last());
            },
        }
    }
}

/// A token that was handed out opens everything from then on.
pub proof fn law_paired_token_is_authorized(
    booth: BoothView,
    token: Seq<char>,
    next_code: Seq<char>,
    need: Capability,
)
    requires
        grants_everything(booth),
    ensures
        denial(booth_after_pair(booth, token, next_code), token, need) is None,
        grants_everything(booth_after_pair(booth, token, next_code)),
{
    let after = booth_after_pair(booth, token, next_code);
    let both = seq![Capability::Operator, Capability::Lease];
    assert(both[0] == Capability::Operator && both[1] == Capability::Lease);
    assert(after.tokens.drop_last() =~= booth.tokens);
    assert(grants_everything(after)) by {
        assert forall|i: int| #![trigger after.tokens[i]] 0 <= i < after.tokens.len() implies {
            &&& after.tokens[i].capabilities.contains(Capability::Operator)
            &&& after.tokens[i].capabilities.contains(Capability::Lease)
        } by {
            if i < booth.tokens.len() {
                assert(after.tokens[i] == booth.tokens[i]);
            }
        }
    }
    lemma_first_issued_is_issued(after.tokens, stored_hash(token));
}

/// A code works once: whatever was accepted for it is refused from then on,
/// and the token that was handed out stays good, before the second try as
/// after it.
pub proof fn law_code_works_once(
    booth: BoothView,
    presented: Seq<char>,
    token: Seq<char>,
    next_code: Seq<char>,
    need: Capability,
)
    requires
        grants_everything(booth),
        codes_match(booth.code, presented),
        !codes_match(booth.code, next_code),
    ensures
        ({
            let after = booth_after_pair(booth, token, next_code);
            &&& after.code != booth.code
            &&& !codes_match(after.code, presented)
            &&& denial(after, token, need) is None
        }),
{
    law_paired_token_is_authorized(booth, token, next_code, need);
}

/// Handing out a token changes nothing for the tokens handed out before.
pub proof fn law_earlier_tokens_keep_their_standing(
    booth: BoothView,
    token: Seq<char>,
    next_code: Seq<char>,
    earlier: Seq<char>,
    need: Capability,
)
    requires
        denial(booth, earlier, need) != Some(PairError::UnknownToken),
    ensures
        denial(booth_after_pair(booth, token, next_code), earlier, need) == denial(
            booth,
            earlier,
            need,
        ),
{
    let after = booth_after_pair(booth, token, next_code);
    assert(after.tokens.drop_last() =~= booth.tokens);
}

/// A booth that has issued nothing knows no token.
pub proof fn law_nothing_is_authorized_before_pairing(
    booth: BoothView,
    token: Seq<char>,
    need: Capability,
)
    requires
        booth.tokens.len() == 0,
    ensures
        denial(booth, token, need) == Some(PairError::UnknownToken),
{
}

proof fn lemma_normalized_concat(a: Seq<char>, b: Seq<char>)
    ensures
        normalized(a + b) == normalized(a) + normalized(b),
    decreases b.len(),
{
    if b.len() == 0 {
        assert(a + b =~= a);
    } else {
        assert((a + b).drop_last() =~= a + b.drop_last());
        lemma_normalized_concat(a, b.drop_last());
        assert(normalized(a + b) =~= normalized(a) + normalized(b));
    }
}

/// A code matches itself however its separators and its letter case are
/// written: what is compared is already in normal form.
pub proof fn law_normal_form_matches_the_code(code: Seq<char>)
    ensures
        codes_match(code, normalized(code)),
    decreases code.len(),
{
    if code.len() > 0 {
        law_normal_form_matches_the_code(code.drop_last());
        let before = normalized(code.drop_last());
        if ascii_alphanumeric(code.last()) {
            let c = ascii_upper(code.last());
            assert(ascii_alphanumeric(c) && ascii_upper(c) == c);
            assert(before.push(c).drop_last() =~= before);
        }
    }
}

/// Separators count for nothing: a code may be typed with or without them.
pub proof fn law_separators_count_for_nothing(a: Seq<char>, c: char, b: Seq<char>)
    requires
        !ascii_alphanumeric(c),
    ensures
        codes_match(a + seq![c] + b, a + b),
{
    lemma_normalized_concat(a + seq![c], b);
    lemma_normalized_concat(a, seq![c]);
    lemma_normalized_concat(a, b);
    reveal_with_fuel(normalized, 2);
    assert(seq![c].drop_last() =~= Seq::empty());
    assert(normalized(seq![c]) =~= Seq::empty());
    assert(normalized(a) + Seq::<char>::empty() =~= normalized(a));
}

} // verus!
