use vstd::prelude::*;
use vstd::arithmetic::div_mod::{lemma_basic_div, lemma_div_denominator, lemma_fundamental_div_mod};
use vstd::arithmetic::power2::{lemma2_to64, lemma_pow2_adds, lemma_pow2_pos, pow2};

verus! {

#[verifier::external_type_specification]
#[verifier::external_body]
pub struct ExUuidError(uuid::Error);

/// The value that `uuid::Uuid::parse_str` reads from a text, if it accepts it.
pub uninterp spec fn parsed_uuid(s: Seq<char>) -> Option<u128>;

/// The lowercase hexadecimal digit of `n`, for `0 <= n < 16`.
pub open spec fn hex_digit(n: int) -> char {
    seq!['0', '1', '2', '3', '4', '5', '6', '7', '8', '9', 'a', 'b', 'c', 'd', 'e', 'f'][n]
}

/// The `k`-th group of four bits of `v`, counted from the most significant.
pub open spec fn nibble(v: u128, k: int) -> int {
    (v as int / pow2((4 * (31 - k)) as nat) as int) % 16
}

/// The hexadecimal digits of nibbles `from` up to `to` of `v`.
pub open spec fn hex_digits(v: u128, from: int, to: int) -> Seq<char> {
    Seq::new((to - from) as nat, |j: int| hex_digit(nibble(v, from + j)))
}

/// The hyphenated text of a UUID: 32 lowercase hex digits, most significant
/// first, in groups of 8, 4, 4, 4 and 12 joined by hyphens.
pub open spec fn hyphenated(v: u128) -> Seq<char> {
    hex_digits(v, 0, 8) + seq!['-'] + hex_digits(v, 8, 12) + seq!['-'] + hex_digits(v, 12, 16)
        + seq!['-'] + hex_digits(v, 16, 20) + seq!['-'] + hex_digits(v, 20, 32)
}

/// The version field of a UUID (bits 76 to 79).
pub open spec fn uuid_version(v: u128) -> u128 {
    (v >> 76u128) & 0xfu128
}

/// The two variant bits of a UUID (bits 62 and 63).
pub open spec fn uuid_variant(v: u128) -> u128 {
    (v >> 62u128) & 0x3u128
}

/// The value of a lowercase hexadecimal digit (16 for any other character).
pub open spec fn hex_value(c: char) -> int {
    if c == '0' { 0 } else if c == '1' { 1 } else if c == '2' { 2 } else if c == '3' { 3 }
    else if c == '4' { 4 } else if c == '5' { 5 } else if c == '6' { 6 } else if c == '7' { 7 }
    else if c == '8' { 8 } else if c == '9' { 9 } else if c == 'a' { 10 } else if c == 'b' { 11 }
    else if c == 'c' { 12 } else if c == 'd' { 13 } else if c == 'e' { 14 } else if c == 'f' { 15 }
    else { 16 }
}

/// A hex digit reads back as its value, and is neither a hyphen nor a
/// character below `'0'`.
pub proof fn lemma_hex_digit_decodes(n: int)
    requires
        0 <= n < 16,
    ensures
        hex_value(hex_digit(n)) == n,
        hex_digit(n) != '-',
        (hex_digit(n) as u32) >= 0x30,
{
}

/// The nibbles of `v` before the `k`-th, read as a number.
spec fn leading(v: u128, k: int) -> int {
    v as int / pow2((4 * (32 - k)) as nat) as int
}

proof fn lemma_leading_step(v: u128, k: int)
    requires
        0 <= k < 32,
    ensures
        leading(v, k + 1) == leading(v, k) * 16 + nibble(v, k),
        0 <= nibble(v, k) < 16,
{
    let e = (4 * (31 - k)) as nat;
    let d = pow2(e) as int;
    lemma_pow2_pos(e);
    lemma_pow2_adds(e, 4);
    lemma2_to64();
    assert((4 * (32 - k)) as nat == e + 4);
    lemma_div_denominator(v as int, d, 16);
    lemma_fundamental_div_mod(v as int / d, 16);
}

proof fn lemma_leading_ends(v: u128)
    ensures
        leading(v, 0) == 0,
        leading(v, 32) == v,
{
    lemma2_to64();
    lemma_pow2_adds(64, 64);
    assert(pow2(128) == 0x1_0000_0000_0000_0000_0000_0000_0000_0000);
    lemma_basic_div(v as int, pow2(128) as int);
    assert((4 * (32 - 0int)) as nat == 128);
    assert((4 * (32 - 32int)) as nat == 0);
    assert(v as int / 1 == v as int);
}

proof fn lemma_nibbles_determine(a: u128, b: u128, k: int)
    requires
        0 <= k <= 32,
        forall|j: int| 0 <= j < k ==> nibble(a, j) == nibble(b, j),
    ensures
        leading(a, k) == leading(b, k),
    decreases k,
{
    if k == 0 {
        lemma_leading_ends(a);
        lemma_leading_ends(b);
    } else {
        lemma_nibbles_determine(a, b, k - 1);
        lemma_leading_step(a, k - 1);
        lemma_leading_step(b, k - 1);
    }
}

/// Where the digit of nibble `k` stands in the hyphenated text.
pub open spec fn digit_position(k: int) -> int {
    if k < 8 { k } else if k < 12 { k + 1 } else if k < 16 { k + 2 } else if k < 20 { k + 3 } else { k + 4 }
}

/// The hyphenated text has 36 characters: the digit of each nibble at its
/// position, hyphens at 8, 13, 18 and 23, and nothing else.
pub proof fn lemma_hyphenated_layout(v: u128)
    ensures
        hyphenated(v).len() == 36,
        forall|k: int| 0 <= k < 32 ==> #[trigger] hyphenated(v)[digit_position(k)] == hex_digit(nibble(v, k)),
        hyphenated(v)[8] == '-' && hyphenated(v)[13] == '-' && hyphenated(v)[18] == '-' && hyphenated(v)[23] == '-',
        forall|i: int| 0 <= i < 36 ==> #[trigger] hyphenated(v)[i] == '-' || hex_value(hyphenated(v)[i]) < 16,
{
    assert forall|i: int| 0 <= i < 36 implies #[trigger] hyphenated(v)[i] == '-' || hex_value(hyphenated(v)[i]) < 16 by {
        if i != 8 && i != 13 && i != 18 && i != 23 {
            let k = if i < 8 { i } else if i < 13 { i - 1 } else if i < 18 { i - 2 } else if i < 23 { i - 3 } else { i - 4 };
            assert(digit_position(k) == i);
            lemma_leading_step(v, k);
            lemma_hex_digit_decodes(nibble(v, k));
        }
    }
}

/// Different ids have different hyphenated texts.
pub proof fn lemma_hyphenated_injective(a: u128, b: u128)
    requires
        hyphenated(a) == hyphenated(b),
    ensures
        a == b,
{
    lemma_hyphenated_layout(a);
    lemma_hyphenated_layout(b);
    assert forall|j: int| 0 <= j < 32 implies nibble(a, j) == nibble(b, j) by {
        lemma_leading_step(a, j);
        lemma_leading_step(b, j);
        assert(hyphenated(a)[digit_position(j)] == hex_digit(nibble(a, j)));
        assert(hyphenated(b)[digit_position(j)] == hex_digit(nibble(b, j)));
        lemma_hex_digit_decodes(nibble(a, j));
        lemma_hex_digit_decodes(nibble(b, j));
        assert(hex_value(hex_digit(nibble(a, j))) == hex_value(hex_digit(nibble(b, j))));
    }
    lemma_nibbles_determine(a, b, 32);
    lemma_leading_ends(a);
    lemma_leading_ends(b);
}

/// Relies on `uuid::Uuid::parse_str` (with `as_u128`, which reads the parsed
/// bytes big-endian): whether a text is a UUID, and which, depends on the text
/// alone.
#[verifier::external_body]
fn parse_uuid(s: &str) -> (r: Result<u128, uuid::Error>)
    ensures
        match r {
            Ok(v) => parsed_uuid(s@) == Some(v),
            Err(_) => parsed_uuid(s@) is None,
        },
{
    match uuid::Uuid::parse_str(s) {
        Ok(u) => Ok(u.as_u128()),
        Err(e) => Err(e),
    }
}

/// Relies on `Display` of `uuid::Uuid` (built by `from_u128`, big-endian):
/// the hyphenated lowercase form.
#[verifier::external_body]
fn format_uuid(v: u128) -> (r: String)
    ensures
        r@ == hyphenated(v),
{
    uuid::Uuid::from_u128(v).to_string()
}

/// Relies on `uuid::Uuid::new_v4`: random bits, with the version field set to
/// 4 and the variant bits to `0b10`.
#[verifier::external_body]
fn random_uuid() -> (r: u128)
    ensures
        uuid_version(r) == 4,
        uuid_variant(r) == 2,
{
    uuid::Uuid::new_v4().as_u128()
}

/// The primary key of a session-key record: a UUID as its 128-bit value.
#[derive(Clone, Copy, Debug, PartialEq, Eq, Hash, Structural)]
pub struct KeyId {
    pub value: u128,
}

/// A text that is not a UUID.
#[derive(Debug)]
pub struct InvalidKeyId {
    pub text: String,
}

impl KeyId {
    pub fn from_u128(value: u128) -> (r: KeyId)
        ensures
            r.value == value,
    {
        KeyId { value }
    }

    /// Reads a UUID in any of the forms that `uuid` accepts (hyphenated,
    /// simple, braced, URN).
    pub fn parse(text: &str) -> (r: Result<KeyId, InvalidKeyId>)
        ensures
            match r {
                Ok(id) => parsed_uuid(text@) == Some(id.value),
                Err(e) => parsed_uuid(text@) is None && e.text@ == text@,
            },
    {
        match parse_uuid(text) {
            Ok(value) => Ok(KeyId { value }),
            Err(_) => Err(InvalidKeyId { text: text.to_string() }),
        }
    }

    /// A fresh random (version 4) id.
    pub fn generate() -> (r: KeyId)
        ensures
            uuid_version(r.value) == 4,
            uuid_variant(r.value) == 2,
    {
        KeyId { value: random_uuid() }
    }

    /// The hyphenated lowercase text of this id.
    pub fn to_hyphenated(&self) -> (r: String)
        ensures
            r@ == hyphenated(self.value),
    {
        format_uuid(self.value)
    }
}

} // verus!
