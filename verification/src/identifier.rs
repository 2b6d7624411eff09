//! Time-ordered 128-bit identifiers and their canonical text.
//!
//! An identifier is held as a `u128`, most significant byte first, so that
//! the order of the integers is the order of the identifiers. Its text is the
//! hyphenated lower-case form, 36 characters long.

use uuid::Uuid;
use vstd::prelude::*;

verus! {

/// The lower-case hexadecimal digit for `n`, where `0 <= n < 16`.
pub open spec fn hex_digit(n: int) -> char {
    if n < 10 {
        (n + 48) as char
    } else {
        (n + 87) as char
    }
}

/// The `n` lowest hexadecimal digits of `v`, most significant first.
pub open spec fn hex_digits(v: nat, n: nat) -> Seq<char>
    decreases n,
{
    if n == 0 {
        Seq::empty()
    } else {
        hex_digits(v / 16, (n - 1) as nat).push(hex_digit((v % 16) as int))
    }
}

/// The canonical text of an identifier: its 32 hexadecimal digits in groups
/// of 8, 4, 4, 4 and 12, with a hyphen between two groups.
pub open spec fn hyphenated_text(id: u128) -> Seq<char> {
    let digits = hex_digits(id as nat, 32);
    digits.subrange(0, 8) + seq!['-'] + digits.subrange(8, 12) + seq!['-'] + digits.subrange(
        12,
        16,
    ) + seq!['-'] + digits.subrange(16, 20) + seq!['-'] + digits.subrange(20, 32)
}

/// The version field of an identifier: bits 76 to 79.
pub open spec fn version(id: u128) -> u128 {
    (id >> 76) & 0xf
}

/// The variant field of an identifier: bits 62 and 63.
pub open spec fn variant(id: u128) -> u128 {
    (id >> 62) & 0x3
}

/// The Unix time in milliseconds that a version 7 identifier carries in its
/// 48 most significant bits.
pub open spec fn unix_millis(id: u128) -> u128 {
    id >> 80
}

/// A version 7 identifier of the standard variant.
pub open spec fn is_v7(id: u128) -> bool {
    version(id) == 7 && variant(id) == 2
}

/// `i` is the first position at which `a` and `b` differ, and `a` is the
/// smaller there: it has ended, or holds the smaller character.
pub open spec fn smaller_at(a: Seq<char>, b: Seq<char>, i: int) -> bool {
    &&& 0 <= i <= a.len()
    &&& i < b.len()
    &&& forall|j: int| 0 <= j < i ==> a[j] == b[j]
    &&& i < a.len() ==> (a[i] as int) < (b[i] as int)
}

/// `a` comes strictly before `b` in lexicographic order, the order in which
/// strings compare.
pub open spec fn lex_less(a: Seq<char>, b: Seq<char>) -> bool {
    exists|i: int| smaller_at(a, b, i)
}

/// Whether `v` can be written with `n` hexadecimal digits.
pub open spec fn has_digits(v: nat, n: nat) -> bool
    decreases n,
{
    if n == 0 {
        v == 0
    } else {
        has_digits(v / 16, (n - 1) as nat)
    }
}

/// `hex_digits(v, n)` has `n` characters.
pub proof fn lemma_hex_digits_len(v: nat, n: nat)
    ensures
        hex_digits(v, n).len() == n,
    decreases n,
{
    if n > 0 {
        lemma_hex_digits_len(v / 16, (n - 1) as nat);
    }
}

/// Of two numbers written with the same count of digits, the smaller number
/// has the smaller digit where the two texts first differ.
pub proof fn lemma_hex_digits_order(a: nat, b: nat, n: nat)
    requires
        a < b,
        has_digits(a, n),
        has_digits(b, n),
    ensures
        exists|i: int| 0 <= i < n && smaller_at(hex_digits(a, n), hex_digits(b, n), i),
    decreases n,
{
    if n > 0 {
        let m = (n - 1) as nat;
        let head_a = hex_digits(a / 16, m);
        let head_b = hex_digits(b / 16, m);
        let text_a = hex_digits(a, n);
        let text_b = hex_digits(b, n);
        lemma_hex_digits_len(a / 16, m);
        lemma_hex_digits_len(b / 16, m);
        if a / 16 < b / 16 {
            lemma_hex_digits_order(a / 16, b / 16, m);
            let i = choose|i: int| 0 <= i < m && smaller_at(head_a, head_b, i);
            assert forall|j: int| 0 <= j < i implies text_a[j] == text_b[j] by {
                assert(text_a[j] == head_a[j]);
                assert(text_b[j] == head_b[j]);
            }
            assert(text_a[i] == head_a[i]);
            assert(text_b[i] == head_b[i]);
            assert(smaller_at(text_a, text_b, i));
        } else {
            assert(a / 16 == b / 16);
            assert(a % 16 < b % 16);
            assert forall|j: int| 0 <= j < m implies text_a[j] == text_b[j] by {
                assert(text_a[j] == head_a[j]);
                assert(text_b[j] == head_b[j]);
            }
            assert(smaller_at(text_a, text_b, m as int));
        }
    }
}

/// Which of the 32 digits stands at position `p` of the text, where `p` is
/// no position of a hyphen.
pub open spec fn digit_index(p: int) -> int {
    if p < 8 {
        p
    } else if p < 13 {
        p - 1
    } else if p < 18 {
        p - 2
    } else if p < 23 {
        p - 3
    } else {
        p - 4
    }
}

/// Where the `k`-th of the 32 digits stands in the text.
pub open spec fn text_index(k: int) -> int {
    if k < 8 {
        k
    } else if k < 12 {
        k + 1
    } else if k < 16 {
        k + 2
    } else if k < 20 {
        k + 3
    } else {
        k + 4
    }
}

/// The text of an identifier has 36 characters: a hyphen at the positions 8,
/// 13, 18 and 23, and elsewhere the 32 digits in their order.
pub proof fn lemma_hyphenated_shape(id: u128)
    ensures
        hyphenated_text(id).len() == 36,
        forall|p: int|
            0 <= p < 36 ==> #[trigger] hyphenated_text(id)[p] == (if p == 8 || p == 13 || p == 18
                || p == 23 {
                '-'
            } else {
                hex_digits(id as nat, 32)[digit_index(p)]
            }),
{
    lemma_hex_digits_len(id as nat, 32);
}

/// Whether `c` is a lower-case hexadecimal digit.
pub open spec fn is_hex_digit(c: char) -> bool {
    (48 <= c as int <= 57) || (97 <= c as int <= 102)
}

/// Whether `text` is written as identifiers are: 36 characters, hyphens at
/// the positions 8, 13, 18 and 23, and a hexadecimal digit at every other.
pub open spec fn is_uuid_text(text: Seq<char>) -> bool {
    &&& text.len() == 36
    &&& forall|p: int|
        0 <= p < 36 ==> if p == 8 || p == 13 || p == 18 || p == 23 {
            #[trigger] text[p] == '-'
        } else {
            is_hex_digit(#[trigger] text[p])
        }
}

/// Every character of `hex_digits(v, n)` is a hexadecimal digit.
pub proof fn lemma_hex_digits_are_digits(v: nat, n: nat)
    ensures
        forall|k: int| 0 <= k < n ==> is_hex_digit(#[trigger] hex_digits(v, n)[k]),
    decreases n,
{
    if n > 0 {
        lemma_hex_digits_are_digits(v / 16, (n - 1) as nat);
        lemma_hex_digits_len(v / 16, (n - 1) as nat);
        let head = hex_digits(v / 16, (n - 1) as nat);
        assert forall|k: int| 0 <= k < n implies is_hex_digit(#[trigger] hex_digits(v, n)[k]) by {
            if k < n - 1 {
                assert(hex_digits(v, n)[k] == head[k]);
            }
        }
    }
}

/// The text of every identifier is written as identifiers are.
pub proof fn lemma_text_is_uuid_text(id: u128)
    ensures
        is_uuid_text(hyphenated_text(id)),
{
    lemma_hyphenated_shape(id);
    lemma_hex_digits_are_digits(id as nat, 32);
    lemma_hex_digits_len(id as nat, 32);
    let text = hyphenated_text(id);
    assert forall|p: int| 0 <= p < 36 implies if p == 8 || p == 13 || p == 18 || p == 23 {
        #[trigger] text[p] == '-'
    } else {
        is_hex_digit(#[trigger] text[p])
    } by {
        if !(p == 8 || p == 13 || p == 18 || p == 23) {
            assert(text[p] == hex_digits(id as nat, 32)[digit_index(p)]);
        }
    }
}

/// Every 128-bit number can be written with 32 hexadecimal digits.
pub proof fn lemma_u128_has_32_digits(id: u128)
    ensures
        has_digits(id as nat, 32),
{
    reveal_with_fuel(has_digits, 33);
}

/// Identifiers sort as their texts do: the smaller identifier has the text
/// that comes first in lexicographic order.
pub proof fn lemma_text_preserves_order(a: u128, b: u128)
    requires
        a < b,
    ensures
        lex_less(hyphenated_text(a), hyphenated_text(b)),
{
    lemma_u128_has_32_digits(a);
    lemma_u128_has_32_digits(b);
    lemma_hex_digits_order(a as nat, b as nat, 32);
    let digits_a = hex_digits(a as nat, 32);
    let digits_b = hex_digits(b as nat, 32);
    let k = choose|k: int| 0 <= k < 32 && smaller_at(digits_a, digits_b, k);
    lemma_hex_digits_len(a as nat, 32);
    lemma_hex_digits_len(b as nat, 32);
    lemma_hyphenated_shape(a);
    lemma_hyphenated_shape(b);
    let text_a = hyphenated_text(a);
    let text_b = hyphenated_text(b);
    let i = text_index(k);
    assert forall|j: int| 0 <= j < i implies text_a[j] == text_b[j] by {
        if !(j == 8 || j == 13 || j == 18 || j == 23) {
            assert(digit_index(j) < k);
        }
    }
    assert(digit_index(i) == k);
    assert(smaller_at(text_a, text_b, i));
}

/// Two identifiers with the same text are the same identifier.
pub proof fn lemma_text_injective(a: u128, b: u128)
    requires
        hyphenated_text(a) == hyphenated_text(b),
    ensures
        a == b,
{
    if a < b {
        lemma_text_preserves_order(a, b);
    } else if b < a {
        lemma_text_preserves_order(b, a);
    }
}

/// A version 7 identifier made in a later millisecond is the greater one.
pub proof fn lemma_later_millis_is_greater(a: u128, b: u128)
    requires
        unix_millis(a) < unix_millis(b),
    ensures
        a < b,
{
    assert((a >> 80) < (b >> 80) ==> a < b) by (bit_vector);
}

/// Identifiers made in different milliseconds sort, as texts, by the time
/// they were made.
pub proof fn lemma_later_millis_sorts_after(a: u128, b: u128)
    requires
        unix_millis(a) < unix_millis(b),
    ensures
        lex_less(hyphenated_text(a), hyphenated_text(b)),
{
    lemma_later_millis_is_greater(a, b);
    lemma_text_preserves_order(a, b);
}

/// Makes a version 7 identifier from the system clock and fresh random bits.
///
/// Calls `uuid::Uuid::now_v7` and reads the result with `Uuid::as_u128`. The
/// contract claims what the encoder writes into every such identifier: the
/// version nibble 7 and the variant bits `10`. Nothing is claimed of the
/// timestamp or of the random part.
#[verifier::external_body]
pub(crate) fn uuid_now_v7() -> (id: u128)
    ensures
        is_v7(id),
{
    Uuid::now_v7().as_u128()
}

/// Writes an identifier in its canonical text.
///
/// Calls `uuid::Uuid::from_u128` and formats `Uuid::hyphenated` with
/// `to_string`. The contract claims the documented form: lower-case
/// hexadecimal digits, most significant first, hyphens after the 8th, 12th,
/// 16th and 20th digit.
#[verifier::external_body]
pub(crate) fn uuid_hyphenated(id: u128) -> (text: String)
    ensures
        text@ == hyphenated_text(id),
{
    Uuid::from_u128(id).hyphenated().to_string()
}

} // verus!
