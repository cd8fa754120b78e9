//! Image identifiers: UUIDs, held as their 128-bit big-endian value, read
//! from and written as text through the `uuid` crate.

use vstd::prelude::*;

use uuid::Uuid;

use crate::error::AppError;

verus! {

/// The lowercase hexadecimal digit for `n` (`0 <= n < 16`).
pub open spec fn lower_hex_digit(n: int) -> char {
    if n < 10 {
        ((('0' as int) + n) as u32) as char
    } else {
        ((('a' as int) + n - 10) as u32) as char
    }
}

/// The last `n` hexadecimal digits of `v`, most significant first.
pub open spec fn hex_digits(v: int, n: nat) -> Seq<char>
    decreases n,
{
    if n == 0 {
        seq![]
    } else {
        hex_digits(v / 16, (n - 1) as nat).push(lower_hex_digit(v % 16))
    }
}

/// The hyphenated lowercase text of a UUID, as the `uuid` crate displays
/// it: 32 hex digits in groups of 8-4-4-4-12 separated by `-`.
pub open spec fn uuid_hyphenated(v: u128) -> Seq<char> {
    let d = hex_digits(v as int, 32);
    d.subrange(0, 8) + seq!['-'] + d.subrange(8, 12) + seq!['-'] + d.subrange(12, 16) + seq!['-']
        + d.subrange(16, 20) + seq!['-'] + d.subrange(20, 32)
}

/// `v` is a version 7 UUID of the RFC 9562 variant: its version field
/// (bits 76 to 79) is 7 and its variant field (bits 62 and 63) is `0b10`.
pub open spec fn is_version7(v: u128) -> bool {
    &&& (v as int / 0x1000_0000_0000_0000_0000) % 16 == 7
    &&& (v as int / 0x4000_0000_0000_0000) % 4 == 2
}

/// The value of a hexadecimal digit in either case.
pub open spec fn hex_digit_value(c: char) -> Option<int> {
    if '0' <= c && c <= '9' {
        Some((c as int) - ('0' as int))
    } else if 'a' <= c && c <= 'f' {
        Some((c as int) - ('a' as int) + 10)
    } else if 'A' <= c && c <= 'F' {
        Some((c as int) - ('A' as int) + 10)
    } else {
        None
    }
}

/// Every character of `s` is a hexadecimal digit.
pub open spec fn all_hex(s: Seq<char>) -> bool {
    forall|i: int| 0 <= i < s.len() ==> (#[trigger] hex_digit_value(s[i])) is Some
}

/// The value of a sequence of hexadecimal digits, most significant first.
pub open spec fn hex_value(s: Seq<char>) -> int
    decreases s.len(),
{
    if s.len() == 0 {
        0
    } else {
        hex_value(s.drop_last()) * 16 + hex_digit_value(s.last())->0
    }
}

/// The UUID written as 32 hex digits with no separator.
pub open spec fn uuid_simple_value(s: Seq<char>) -> Option<u128> {
    if s.len() == 32 && all_hex(s) {
        Some(hex_value(s) as u128)
    } else {
        None
    }
}

/// The UUID written as 36 characters: hex digits with `-` at positions
/// 8, 13, 18 and 23.
pub open spec fn uuid_hyphenated_value(s: Seq<char>) -> Option<u128> {
    if s.len() == 36 && s[8] == '-' && s[13] == '-' && s[18] == '-' && s[23] == '-' {
        uuid_simple_value(
            s.subrange(0, 8) + s.subrange(9, 13) + s.subrange(14, 18) + s.subrange(19, 23)
                + s.subrange(24, 36),
        )
    } else {
        None
    }
}

/// ASCII case-insensitive equality of two characters.
pub open spec fn eq_ignore_ascii_case(a: char, b: char) -> bool {
    a == b || ('a' <= a && a <= 'z' && (b as int) == (a as int) - 32) || ('A' <= a && a <= 'Z' && (
    b as int) == (a as int) + 32)
}

/// `s` is `urn:uuid:` in any ASCII case.
pub open spec fn is_urn_prefix(s: Seq<char>) -> bool {
    let p = "urn:uuid:"@;
    s.len() == 9 && forall|i: int| 0 <= i < 9 ==> eq_ignore_ascii_case(#[trigger] s[i], p[i])
}

/// The UUID that `s` denotes, in any of the forms that `Uuid::try_parse`
/// reads: simple (32 hex digits), hyphenated, braced (`{hyphenated}`) or
/// URN (`urn:uuid:hyphenated`, prefix in any case). Hex digits may be in
/// either case. `None` for any other text.
pub open spec fn uuid_text_value(s: Seq<char>) -> Option<u128> {
    if s.len() == 32 {
        uuid_simple_value(s)
    } else if s.len() == 36 {
        uuid_hyphenated_value(s)
    } else if s.len() == 38 && s[0] == '{' && s[37] == '}' {
        uuid_hyphenated_value(s.subrange(1, 37))
    } else if s.len() == 45 && is_urn_prefix(s.subrange(0, 9)) {
        uuid_hyphenated_value(s.subrange(9, 45))
    } else {
        None
    }
}

/// `Uuid::try_parse`, then `Uuid::as_u128`. The contract claims that the
/// parse succeeds exactly on the forms of [`uuid_text_value`] and yields
/// the big-endian value of the 32 hex digits.
#[verifier::external_body]
fn uuid_try_parse(text: &str) -> (res: Option<u128>)
    ensures
        res == uuid_text_value(text@),
{
    match Uuid::try_parse(text) {
        Ok(id) => Some(id.as_u128()),
        Err(_) => None,
    }
}

/// `Uuid::from_u128`, then `ToString::to_string` (the `Display` of a
/// `Uuid`). The contract claims that the text is the lowercase
/// hyphenated form.
#[verifier::external_body]
fn uuid_to_text(id: u128) -> (res: String)
    ensures
        res@ == uuid_hyphenated(id),
{
    Uuid::from_u128(id).to_string()
}

/// `Uuid::now_v7`, then `Uuid::as_u128`. The result depends on the clock
/// and on random bits; the contract claims only that its version field
/// (bits 76 to 79) is 7 and its variant field (bits 62 and 63) is `0b10`.
#[verifier::external_body]
fn uuid_now_v7() -> (res: u128)
    ensures
        is_version7(res),
{
    Uuid::now_v7().as_u128()
}

/// Reads an image id from a path segment.
///
/// Returns [`AppError::InvalidImageId`] if the text is not a UUID.
pub fn parse_image_id(text: &str) -> (res: Result<u128, AppError>)
    ensures
        uuid_text_value(text@) matches Some(v) ==> res == Ok::<u128, AppError>(v),
        uuid_text_value(text@) is None ==> res == Err::<u128, AppError>(AppError::InvalidImageId),
{
    match uuid_try_parse(text) {
        Some(v) => Ok(v),
        None => Err(AppError::InvalidImageId),
    }
}

/// The text of an image id, as it appears in file names and URLs.
pub fn image_id_text(id: u128) -> (res: String)
    ensures
        res@ == uuid_hyphenated(id),
{
    uuid_to_text(id)
}

/// A fresh, time-ordered image id (a version 7 UUID).
pub fn new_image_id() -> (res: u128)
    ensures
        is_version7(res),
{
    uuid_now_v7()
}

/// `16^n`.
pub open spec fn pow16(n: nat) -> int
    decreases n,
{
    if n == 0 {
        1
    } else {
        16 * pow16((n - 1) as nat)
    }
}

proof fn lemma_pow16_positive(n: nat)
    ensures
        pow16(n) > 0,
    decreases n,
{
    if n > 0 {
        lemma_pow16_positive((n - 1) as nat);
    }
}

proof fn lemma_hex_digits_shape(v: int, n: nat)
    requires
        v >= 0,
    ensures
        hex_digits(v, n).len() == n,
        all_hex(hex_digits(v, n)),
        forall|i: int| 0 <= i < n ==> (#[trigger] hex_digits(v, n)[i]) != '-' && hex_digits(v, n)[i]
            != '/',
        hex_value(hex_digits(v, n)) == v % pow16(n),
    decreases n,
{
    if n > 0 {
        let m = (n - 1) as nat;
        lemma_hex_digits_shape(v / 16, m);
        lemma_pow16_positive(m);
        let d = hex_digits(v, n);
        let r = v % 16;
        assert(0 <= r < 16);
        assert(d.drop_last() =~= hex_digits(v / 16, m));
        assert(hex_digit_value(lower_hex_digit(r)) == Some(r));
        assert forall|i: int| 0 <= i < n implies (#[trigger] hex_digit_value(d[i])) is Some by {
            if i < m {
                assert(d[i] == hex_digits(v / 16, m)[i]);
            }
        }
        assert forall|i: int| 0 <= i < n implies (#[trigger] d[i]) != '-' && d[i] != '/' by {
            if i < m {
                assert(d[i] == hex_digits(v / 16, m)[i]);
            }
        }
        vstd::arithmetic::div_mod::lemma_breakdown(v, 16, pow16(m));
        assert(hex_value(d) == (v / 16 % pow16(m)) * 16 + r);
    }
}

/// Writing an image id as text and reading it back gives the same id, so
/// the `image_id` an upload answers with names the stored image.
pub proof fn law_image_id_text_round_trip(v: u128)
    ensures
        uuid_text_value(uuid_hyphenated(v)) == Some(v),
        uuid_hyphenated(v).len() == 36,
        forall|i: int| 0 <= i < 36 ==> #[trigger] uuid_hyphenated(v)[i] != '/',
{
    let d = hex_digits(v as int, 32);
    lemma_hex_digits_shape(v as int, 32);
    let s = uuid_hyphenated(v);
    assert(s.len() == 36);
    assert(s[8] == '-' && s[13] == '-' && s[18] == '-' && s[23] == '-');
    let joined = s.subrange(0, 8) + s.subrange(9, 13) + s.subrange(14, 18) + s.subrange(19, 23)
        + s.subrange(24, 36);
    assert(joined =~= d);
    reveal_with_fuel(pow16, 33);
    assert(pow16(32) == 0x1_0000_0000_0000_0000_0000_0000_0000_0000);
    assert forall|i: int| 0 <= i < 36 implies #[trigger] s[i] != '/' by {
        if i < 8 {
            assert(s[i] == d[i]);
        } else if 8 < i < 13 {
            assert(s[i] == d[i - 1]);
        } else if 13 < i < 18 {
            assert(s[i] == d[i - 2]);
        } else if 18 < i < 23 {
            assert(s[i] == d[i - 3]);
        } else if 23 < i {
            assert(s[i] == d[i - 4]);
        }
    }
}

} // verus!
