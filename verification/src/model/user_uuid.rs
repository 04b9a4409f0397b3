//! The textual forms of a UUID.
//!
//! A UUID is held as a 128-bit number. Its text is made of the number's 32
//! hexadecimal digits, the most significant one first.
use vstd::arithmetic::power::pow;
use vstd::prelude::*;

verus! {

/// The error that [`uuid::Uuid::parse_str`] gives.
#[verifier::external_type_specification]
#[verifier::external_body]
pub struct ExUuidError(uuid::Error);

/// The lower-case hexadecimal digit for a value below 16.
pub open spec fn hex_char(value: int) -> char {
    if value < 10 {
        ('0' as int + value) as char
    } else {
        ('a' as int + value - 10) as char
    }
}

/// The value of a hexadecimal digit, upper or lower case.
pub open spec fn hex_digit(c: char) -> Option<int> {
    if '0' <= c <= '9' {
        Some(c as int - '0' as int)
    } else if 'a' <= c <= 'f' {
        Some(c as int - 'a' as int + 10)
    } else if 'A' <= c <= 'F' {
        Some(c as int - 'A' as int + 10)
    } else {
        None
    }
}

/// The number that a sequence of hexadecimal digits stands for.
pub open spec fn hex_value(digits: Seq<char>) -> int
    decreases digits.len(),
{
    if digits.len() == 0 {
        0
    } else {
        16 * hex_value(digits.drop_last()) + hex_digit(digits.last()).unwrap()
    }
}

/// The 32 digits of a UUID.
pub open spec fn uuid_digits(uuid: u128) -> Seq<char> {
    Seq::new(32, |i: int| hex_char((uuid as int / pow(16, (31 - i) as nat)) % 16))
}

/// 32 digits in groups of 8, 4, 4, 4 and 12, with hyphens between the groups.
pub open spec fn with_hyphens(digits: Seq<char>) -> Seq<char> {
    digits.subrange(0, 8) + seq!['-'] + digits.subrange(8, 12) + seq!['-'] + digits.subrange(12, 16)
        + seq!['-'] + digits.subrange(16, 20) + seq!['-'] + digits.subrange(20, 32)
}

/// The hyphenated text of a UUID.
pub open spec fn hyphenated(uuid: u128) -> Seq<char> {
    with_hyphens(uuid_digits(uuid))
}

/// The text of a UUID as a uniform resource name.
pub open spec fn urn(uuid: u128) -> Seq<char> {
    "urn:uuid:"@ + hyphenated(uuid)
}

/// The UUID that a text stands for: 32 hexadecimal digits, bare, hyphenated, or
/// hyphenated behind `urn:uuid:`.
pub open spec fn uuid_of(text: Seq<char>) -> Option<u128> {
    if is_uuid_digits(digits_of(text)) {
        Some(hex_value(digits_of(text)) as u128)
    } else {
        None
    }
}

/// Whether these are the digits of a UUID: 32 hexadecimal ones.
pub open spec fn is_uuid_digits(digits: Seq<char>) -> bool {
    &&& digits.len() == 32
    &&& forall|i: int| 0 <= i < digits.len() ==> hex_digit(#[trigger] digits[i]) is Some
}

/// What stands in the places of the digits, in a text that has one of the lengths
/// of a UUID's text.
pub open spec fn digits_of(text: Seq<char>) -> Seq<char> {
    if text.len() == 32 {
        text
    } else if text.len() == 36 {
        without_hyphens(text)
    } else if text.len() == 45 && text.subrange(0, 9) == "urn:uuid:"@ {
        without_hyphens(text.subrange(9, 45))
    } else {
        seq![]
    }
}

/// The digits of a text of 36 characters with hyphens in their four places; no
/// digits where one of the hyphens is missing.
pub open spec fn without_hyphens(text: Seq<char>) -> Seq<char> {
    if text[8] == '-' && text[13] == '-' && text[18] == '-' && text[23] == '-' {
        text.subrange(0, 8) + text.subrange(9, 13) + text.subrange(14, 18) + text.subrange(19, 23)
            + text.subrange(24, 36)
    } else {
        seq![]
    }
}

/// [`uuid::Uuid`]'s `to_string`: the lower-case hyphenated text.
#[verifier::external_body]
pub(crate) fn uuid_to_string(uuid: u128) -> (text: String)
    ensures
        text@ == hyphenated(uuid),
{
    uuid::Uuid::from_u128(uuid).to_string()
}

/// [`uuid::Uuid::to_urn`], as text: `urn:uuid:` and the lower-case hyphenated
/// text.
#[verifier::external_body]
pub(crate) fn uuid_to_urn(uuid: u128) -> (text: String)
    ensures
        text@ == urn(uuid),
{
    uuid::Uuid::from_u128(uuid).to_urn().to_string()
}

/// [`uuid::Uuid::parse_str`]: reads the bare, the hyphenated and the URN form,
/// with digits in either case, and refuses every other text. What the error says
/// is left open.
#[verifier::external_body]
pub(crate) fn uuid_parse(text: &str) -> (parsed: Result<u128, uuid::Error>)
    ensures
        match parsed {
            Ok(uuid) => uuid_of(text@) == Some(uuid),
            Err(_) => uuid_of(text@) is None,
        },
{
    match uuid::Uuid::parse_str(text) {
        Ok(uuid) => Ok(uuid.as_u128()),
        Err(error) => Err(error),
    }
}

/// The first `n` digits of a UUID stand for the number without its lower
/// `32 - n` digits.
proof fn lemma_leading_digits(uuid: u128, n: nat)
    requires
        n <= 32,
    ensures
        hex_value(uuid_digits(uuid).take(n as int)) == uuid as int / pow(16, (32 - n) as nat),
    decreases n,
{
    let digits = uuid_digits(uuid);
    if n == 0 {
        assert(pow(16, 32) == 0x1_0000_0000_0000_0000_0000_0000_0000_0000) by {
            reveal(pow);
            reveal_with_fuel(pow, 33);
        }
        assert(uuid as int / pow(16, 32) == 0);
    } else {
        let m = (n - 1) as nat;
        lemma_leading_digits(uuid, m);
        let low = pow(16, (32 - n) as nat);
        vstd::arithmetic::power::lemma_pow_positive(16, (32 - n) as nat);
        assert(pow(16, (32 - m) as nat) == 16 * low) by {
            reveal(pow);
        }
        vstd::arithmetic::div_mod::lemma_div_denominator(uuid as int, low, 16);
        assert(low * 16 == 16 * low);
        let head = uuid as int / low;
        assert(digits.take(n as int).drop_last() =~= digits.take(m as int));
        assert(digits.take(n as int).last() == hex_char(head % 16));
        assert(hex_digit(hex_char(head % 16)) == Some(head % 16));
        assert(head == 16 * (head / 16) + head % 16);
    }
}

/// Reading a UUID's hyphenated text, or its URN, gives back that UUID.
pub proof fn law_text_gives_back_uuid(uuid: u128)
    ensures
        uuid_of(hyphenated(uuid)) == Some(uuid),
        uuid_of(urn(uuid)) == Some(uuid),
{
    let digits = uuid_digits(uuid);
    let text = hyphenated(uuid);
    assert(without_hyphens(text) =~= digits);
    assert forall|i: int| 0 <= i < 32 implies hex_digit(#[trigger] digits[i]) is Some by {
        let value = (uuid as int / pow(16, (31 - i) as nat)) % 16;
        assert(digits[i] == hex_char(value));
        assert(hex_digit(hex_char(value)) == Some(value));
    }
    assert(hex_value(digits) == uuid) by {
        lemma_leading_digits(uuid, 32);
        assert(digits.take(32) =~= digits);
        vstd::arithmetic::power::lemma_pow0(16);
    }
    reveal_strlit("urn:uuid:");
    assert(urn(uuid).subrange(0, 9) =~= "urn:uuid:"@);
    assert(urn(uuid).subrange(9, 45) =~= text);
}

/// The hyphenated text of a UUID is 36 characters long. It has hyphens behind the first 8
/// digits, and behind each of the three groups of 4 digits that follow, and in the other
/// places the digits of the number from the most significant one on, in lower case. The
/// URN is the same text behind `urn:uuid:`.
pub proof fn law_hyphenated(uuid: u128, i: int)
    requires
        0 <= i < 32,
    ensures
        hyphenated(uuid).len() == 36,
        hyphenated(uuid)[8] == '-',
        hyphenated(uuid)[13] == '-',
        hyphenated(uuid)[18] == '-',
        hyphenated(uuid)[23] == '-',
        ({
            let hyphens: int = if i < 8 {
                0
            } else if i < 12 {
                1
            } else if i < 16 {
                2
            } else if i < 20 {
                3
            } else {
                4
            };
            let value = (uuid as int / pow(16, (31 - i) as nat)) % 16;
            hyphenated(uuid)[i + hyphens] as int == if value < 10 {
                48 + value
            } else {
                87 + value
            }
        }),
        urn(uuid).len() == 45,
        urn(uuid).subrange(0, 9) == "urn:uuid:"@,
        urn(uuid).subrange(9, 45) == hyphenated(uuid),
{
    reveal_strlit("urn:uuid:");
    assert(urn(uuid).subrange(0, 9) =~= "urn:uuid:"@);
    assert(urn(uuid).subrange(9, 45) =~= hyphenated(uuid));
}

/// Hexadecimal digits stand for a number that has as many digits at most.
proof fn lemma_hex_value_bound(digits: Seq<char>)
    requires
        forall|i: int| 0 <= i < digits.len() ==> hex_digit(#[trigger] digits[i]) is Some,
    ensures
        0 <= hex_value(digits) < pow(16, digits.len()),
    decreases digits.len(),
{
    reveal(pow);
    if digits.len() > 0 {
        let init = digits.drop_last();
        assert forall|i: int| 0 <= i < init.len() implies hex_digit(
            #[trigger] init[i],
        ) is Some by {
            assert(init[i] == digits[i]);
        }
        lemma_hex_value_bound(init);
        assert(hex_digit(digits[digits.len() - 1]) is Some);
        assert(pow(16, digits.len()) == 16 * pow(16, init.len()));
    }
}

/// Each digit of the number that hexadecimal digits stand for is the one in its place.
proof fn lemma_digit_in_place(digits: Seq<char>, i: int)
    requires
        forall|j: int| 0 <= j < digits.len() ==> hex_digit(#[trigger] digits[j]) is Some,
        0 <= i < digits.len(),
    ensures
        hex_digit(digits[i]) == Some(
            (hex_value(digits) / pow(16, (digits.len() - 1 - i) as nat)) % 16,
        ),
    decreases digits.len(),
{
    let init = digits.drop_last();
    let last = digits.len() - 1;
    assert forall|j: int| 0 <= j < init.len() implies hex_digit(#[trigger] init[j]) is Some by {
        assert(init[j] == digits[j]);
    }
    assert(hex_digit(digits[last]) is Some);
    lemma_hex_value_bound(init);
    let value = hex_value(digits);
    assert(value == 16 * hex_value(init) + hex_digit(digits[last]).unwrap());
    if i == last {
        vstd::arithmetic::power::lemma_pow0(16);
    } else {
        lemma_digit_in_place(init, i);
        let low = pow(16, (init.len() - 1 - i) as nat);
        vstd::arithmetic::power::lemma_pow_positive(16, (init.len() - 1 - i) as nat);
        assert(pow(16, (last - i) as nat) == 16 * low) by {
            reveal(pow);
        }
        assert(value / 16 == hex_value(init));
        vstd::arithmetic::div_mod::lemma_div_denominator(value, 16, low);
    }
}

/// A text of 32 hexadecimal digits, in either case, is read as the UUID whose digits they
/// are, and so are its hyphenated form and the URN of that.
pub proof fn law_uuid_of_digits(digits: Seq<char>, i: int)
    requires
        digits.len() == 32,
        forall|j: int|
            0 <= j < 32 ==> '0' <= #[trigger] digits[j] <= '9' || 'a' <= digits[j] <= 'f' || 'A'
                <= digits[j] <= 'F',
        0 <= i < 32,
    ensures
        uuid_of(digits) is Some,
        ({
            let value = (uuid_of(digits)->Some_0 as int / pow(16, (31 - i) as nat)) % 16;
            digits[i] as int == if value < 10 {
                48 + value
            } else if digits[i] >= 'a' {
                87 + value
            } else {
                55 + value
            }
        }),
        uuid_of(with_hyphens(digits)) == uuid_of(digits),
        uuid_of("urn:uuid:"@ + with_hyphens(digits)) == uuid_of(digits),
{
    assert forall|j: int| 0 <= j < digits.len() implies hex_digit(#[trigger] digits[j]) is Some by {
    }
    lemma_hex_value_bound(digits);
    assert(pow(16, 32) == 0x1_0000_0000_0000_0000_0000_0000_0000_0000) by {
        reveal(pow);
        reveal_with_fuel(pow, 33);
    }
    lemma_digit_in_place(digits, i);
    let text = with_hyphens(digits);
    assert(without_hyphens(text) =~= digits);
    reveal_strlit("urn:uuid:");
    let urn = "urn:uuid:"@ + text;
    assert(urn.subrange(0, 9) =~= "urn:uuid:"@);
    assert(urn.subrange(9, 45) =~= text);
}

/// No other text is read as a UUID: one that is consists of 32 hexadecimal digits, bare,
/// hyphenated, or hyphenated behind `urn:uuid:`.
pub proof fn law_uuid_of_nothing_else(text: Seq<char>)
    requires
        uuid_of(text) is Some,
    ensures
        exists|digits: Seq<char>| #![trigger with_hyphens(digits)] {
            &&& digits.len() == 32
            &&& forall|j: int|
                0 <= j < 32 ==> '0' <= #[trigger] digits[j] <= '9' || 'a' <= digits[j] <= 'f'
                    || 'A' <= digits[j] <= 'F'
            &&& text == digits || text == with_hyphens(digits) || text == "urn:uuid:"@
                + with_hyphens(digits)
        },
{
    let digits = digits_of(text);
    assert forall|j: int| 0 <= j < 32 implies '0' <= #[trigger] digits[j] <= '9' || 'a'
        <= digits[j] <= 'f' || 'A' <= digits[j] <= 'F' by {
        assert(hex_digit(digits[j]) is Some);
    }
    if text.len() == 36 {
        assert(with_hyphens(digits) =~= text);
    } else if text.len() == 45 {
        assert(with_hyphens(digits) =~= text.subrange(9, 45));
        reveal_strlit("urn:uuid:");
        assert("urn:uuid:"@ + with_hyphens(digits) =~= text);
    }
    assert(with_hyphens(digits).len() == 36);
}

/// Hyphens are put behind the first 8 of 32 digits and behind each of the three groups of
/// 4 that follow, and nothing else is changed.
pub proof fn law_with_hyphens(digits: Seq<char>)
    requires
        digits.len() == 32,
    ensures
        with_hyphens(digits).len() == 36,
        with_hyphens(digits).subrange(0, 8) == digits.subrange(0, 8),
        with_hyphens(digits)[8] == '-',
        with_hyphens(digits).subrange(9, 13) == digits.subrange(8, 12),
        with_hyphens(digits)[13] == '-',
        with_hyphens(digits).subrange(14, 18) == digits.subrange(12, 16),
        with_hyphens(digits)[18] == '-',
        with_hyphens(digits).subrange(19, 23) == digits.subrange(16, 20),
        with_hyphens(digits)[23] == '-',
        with_hyphens(digits).subrange(24, 36) == digits.subrange(20, 32),
{
}

} // verus!
