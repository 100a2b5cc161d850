//! The text form of file ids.

use vstd::prelude::*;
use vstd::arithmetic::div_mod::{lemma_basic_div, lemma_div_denominator, lemma_fundamental_div_mod};
use vstd::arithmetic::power2::{lemma2_to64, lemma_pow2_adds, pow2};

verus! {

/// The lower-case hexadecimal digit for `d < 16`.
pub open spec fn hex_digit(d: int) -> char {
    if d < 10 {
        (('0' as int) + d) as char
    } else {
        (('a' as int) + d - 10) as char
    }
}

/// The `k`-th hexadecimal digit of a 128-bit id, most significant first.
pub open spec fn id_nibble(id: u128, k: int) -> int {
    ((id as int) / (pow2((4 * (31 - k)) as nat) as int)) % 16
}

/// The digit position that the character position `i` of the hyphenated
/// form shows.
pub open spec fn digit_position(i: int) -> int {
    if i < 8 {
        i
    } else if i < 13 {
        i - 1
    } else if i < 18 {
        i - 2
    } else if i < 23 {
        i - 3
    } else {
        i - 4
    }
}

/// The hyphenated lower-case form of a UUID, as the `uuid` crate's
/// `Display` writes it: 32 hexadecimal digits of the big-endian value in
/// groups of 8, 4, 4, 4 and 12, separated by `-`.
pub open spec fn id_text(id: u128) -> Seq<char> {
    Seq::new(
        36,
        |i: int|
            if i == 8 || i == 13 || i == 18 || i == 23 {
                '-'
            } else {
                hex_digit(id_nibble(id, digit_position(i)))
            },
    )
}

/// The character position of the hyphenated form that shows digit `k`.
pub open spec fn char_position(k: int) -> int {
    if k < 8 {
        k
    } else if k < 12 {
        k + 1
    } else if k < 16 {
        k + 2
    } else if k < 20 {
        k + 3
    } else {
        k + 4
    }
}

/// Different digit values have different hexadecimal digits.
proof fn lemma_hex_digit_injective(x: int, y: int)
    requires
        0 <= x < 16,
        0 <= y < 16,
        hex_digit(x) == hex_digit(y),
    ensures
        x == y,
{
    let cx = hex_digit(x);
    let cy = hex_digit(y);
    assert(cx as int == if x < 10 { 48 + x } else { 97 + x - 10 });
    assert(cy as int == if y < 10 { 48 + y } else { 97 + y - 10 });
}

/// The ids agree above digit position `j` (counted from the least
/// significant digit) when all their digits from there up agree.
proof fn lemma_high_digits_agree(a: u128, b: u128, j: nat)
    requires
        j <= 32,
        forall|k: int| 0 <= k <= 31 - j ==> #[trigger] id_nibble(a, k) == id_nibble(b, k),
    ensures
        (a as int) / (pow2(4 * j) as int) == (b as int) / (pow2(4 * j) as int),
    decreases 32 - j,
{
    if j == 32 {
        lemma2_to64();
        lemma_pow2_adds(64, 64);
        assert(pow2(128) == pow2(64) * pow2(64));
        assert((a as int) < pow2(128));
        assert((b as int) < pow2(128));
        lemma_basic_div(a as int, pow2(128) as int);
        lemma_basic_div(b as int, pow2(128) as int);
    } else {
        lemma_high_digits_agree(a, b, j + 1);
        let p = pow2(4 * j) as int;
        lemma2_to64();
        lemma_pow2_adds(4 * j, 4);
        assert(4 * (j + 1) == 4 * j + 4);
        assert(pow2(4 * (j + 1)) as int == p * 16);
        vstd::arithmetic::power2::lemma_pow2_pos(4 * j);
        lemma_div_denominator(a as int, p, 16);
        lemma_div_denominator(b as int, p, 16);
        lemma_fundamental_div_mod((a as int) / p, 16);
        lemma_fundamental_div_mod((b as int) / p, 16);
        let k = 31 - j;
        assert(4 * (31 - k) == 4 * j);
        assert(id_nibble(a, k) == id_nibble(b, k));
    }
}

/// Different ids have different texts, so the files of different ids
/// never share a name.
pub proof fn law_id_text_is_injective(a: u128, b: u128)
    ensures
        id_text(a) == id_text(b) ==> a == b,
{
    if id_text(a) == id_text(b) {
        assert forall|k: int| 0 <= k <= 31 implies #[trigger] id_nibble(a, k) == id_nibble(b, k) by {
            let i = char_position(k);
            assert(digit_position(i) == k);
            assert(id_text(a)[i] == id_text(b)[i]);
            vstd::arithmetic::power2::lemma_pow2_pos((4 * (31 - k)) as nat);
            lemma_hex_digit_injective(id_nibble(a, k), id_nibble(b, k));
        }
        lemma_high_digits_agree(a, b, 0);
        lemma2_to64();
        assert(pow2(4 * 0nat) == 1);
        assert((a as int) / 1 == a as int);
        assert((b as int) / 1 == b as int);
    }
}

/// `uuid::Uuid::from_u128` followed by `to_string`: the hyphenated
/// lower-case text of the id.
#[verifier::external_body]
pub(crate) fn uuid_to_string(id: u128) -> (s: String)
    ensures
        s@ == id_text(id),
{
    uuid::Uuid::from_u128(id).to_string()
}

} // verus!
