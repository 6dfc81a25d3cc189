//! The canonical spelling of a thread identifier.
use vstd::prelude::*;
use vstd::string::*;

use crate::provider::error::ProviderLaunchError;

verus! {

#[verifier::external_type_specification]
#[verifier::external_body]
pub struct ExUuidError(uuid::Error);

/// The value of a hexadecimal digit of either case.
pub open spec fn digit_value(digit: char) -> Option<int> {
    if '0' <= digit && digit <= '9' {
        Some(digit as u32 - '0' as u32)
    } else if 'a' <= digit && digit <= 'f' {
        Some(digit as u32 - 'a' as u32 + 10)
    } else if 'A' <= digit && digit <= 'F' {
        Some(digit as u32 - 'A' as u32 + 10)
    } else {
        None
    }
}

/// The lower-case hexadecimal digit of a value below 16.
pub open spec fn lower_digit(value: int) -> char {
    if value < 10 {
        (value + '0' as u32) as u8 as char
    } else {
        (value - 10 + 'a' as u32) as u8 as char
    }
}

/// The places of the four hyphens.
pub open spec fn hyphen_at(place: int) -> bool {
    place == 8 || place == 13 || place == 18 || place == 23
}

/// Which of the 32 digits stands at a place that holds no hyphen.
pub open spec fn digit_at(place: int) -> int {
    if place < 8 {
        place
    } else if place < 13 {
        place - 1
    } else if place < 18 {
        place - 2
    } else if place < 23 {
        place - 3
    } else {
        place - 4
    }
}

/// One of the 32 digits of sixteen bytes, most significant first.
pub open spec fn digit_of(bytes: Seq<u8>, index: int) -> int {
    if index % 2 == 0 {
        bytes[index / 2] as int / 16
    } else {
        bytes[index / 2] as int % 16
    }
}

/// The canonical spelling: lower-case digits in groups of 8, 4, 4, 4 and 12.
pub open spec fn hyphenated(bytes: Seq<u8>) -> Seq<char> {
    Seq::new(
        36,
        |place: int|
            if hyphen_at(place) {
                '-'
            } else {
                lower_digit(digit_of(bytes, digit_at(place)))
            },
    )
}

/// The 32 digits of a hyphenated spelling, if its hyphens are where they
/// belong.
pub open spec fn unhyphenated(text: Seq<char>) -> Option<Seq<char>> {
    if text.len() == 36 && text[8] == '-' && text[13] == '-' && text[18] == '-' && text[23]
        == '-' {
        Some(
            text.subrange(0, 8) + text.subrange(9, 13) + text.subrange(14, 18) + text.subrange(
                19,
                23,
            ) + text.subrange(24, 36),
        )
    } else {
        None
    }
}

/// The letters `urn:uuid:` in either case.
pub open spec fn urn_prefix(text: Seq<char>) -> bool {
    &&& text.len() == 9
    &&& text[0] == 'u' || text[0] == 'U'
    &&& text[1] == 'r' || text[1] == 'R'
    &&& text[2] == 'n' || text[2] == 'N'
    &&& text[3] == ':'
    &&& text[4] == 'u' || text[4] == 'U'
    &&& text[5] == 'u' || text[5] == 'U'
    &&& text[6] == 'i' || text[6] == 'I'
    &&& text[7] == 'd' || text[7] == 'D'
    &&& text[8] == ':'
}

/// What stands for the 32 digits in one of the four spellings: plain,
/// hyphenated, braced, or as a URN.
pub open spec fn spelled_digits(text: Seq<char>) -> Option<Seq<char>> {
    if text.len() == 32 {
        Some(text)
    } else if text.len() == 36 {
        unhyphenated(text)
    } else if text.len() == 38 && text[0] == '{' && text[37] == '}' {
        unhyphenated(text.subrange(1, 37))
    } else if text.len() == 45 && urn_prefix(text.subrange(0, 9)) {
        unhyphenated(text.subrange(9, 45))
    } else {
        None
    }
}

/// The sixteen bytes that a spelling stands for.
pub open spec fn spelled_bytes(text: Seq<char>) -> Option<Seq<u8>> {
    match spelled_digits(text) {
        Some(digits) => if forall|i: int|
            0 <= i < 32 ==> (#[trigger] digit_value(digits[i])) is Some {
            Some(
                Seq::new(
                    16,
                    |j: int|
                        (digit_value(digits[2 * j])->0 * 16 + digit_value(
                            digits[2 * j + 1],
                        )->0) as u8,
                ),
            )
        } else {
            None
        },
        None => None,
    }
}

/// `uuid::Uuid::parse_str`, then `uuid::Uuid::into_bytes`: accepts exactly the
/// plain, hyphenated, braced and URN spellings of 32 hexadecimal digits of
/// either case, and gives the sixteen bytes that the digits stand for.
#[verifier::external_body]
fn parse_uuid(text: &str) -> (parsed: Result<[u8; 16], uuid::Error>)
    ensures
        match parsed {
            Ok(bytes) => spelled_bytes(text@) == Some(bytes@),
            Err(_) => spelled_bytes(text@) is None,
        },
{
    uuid::Uuid::parse_str(text).map(uuid::Uuid::into_bytes)
}

/// `uuid::Uuid::from_bytes`, then the `Display` of the result: the canonical
/// spelling of the sixteen bytes.
#[verifier::external_body]
fn uuid_text(bytes: [u8; 16]) -> (text: String)
    ensures
        text@ == hyphenated(bytes@),
{
    uuid::Uuid::from_bytes(bytes).to_string()
}

/// The text is the canonical spelling of some sixteen bytes: 36 characters,
/// hyphens at their four places, lower-case hexadecimal digits elsewhere.
pub open spec fn canonical(text: Seq<char>) -> bool {
    &&& text.len() == 36
    &&& forall|place: int|
        0 <= place < 36 ==> if hyphen_at(place) {
            #[trigger] text[place] == '-'
        } else {
            ('0' <= text[place] && text[place] <= '9') || ('a' <= text[place] && text[place]
                <= 'f')
        }
}

proof fn lemma_lower_digit(value: int)
    requires
        0 <= value < 16,
    ensures
        digit_value(lower_digit(value)) == Some(value),
        ('0' <= lower_digit(value) && lower_digit(value) <= '9') || ('a' <= lower_digit(value)
            && lower_digit(value) <= 'f'),
{
}

proof fn lemma_digit_round_trip(digit: char)
    requires
        ('0' <= digit && digit <= '9') || ('a' <= digit && digit <= 'f'),
    ensures
        digit_value(digit) matches Some(value) && 0 <= value < 16 && lower_digit(value) == digit,
{
}

/// The canonical spelling of sixteen bytes is canonical, and it stands for
/// exactly those bytes.
pub proof fn law_spelling_round_trip(bytes: Seq<u8>)
    requires
        bytes.len() == 16,
    ensures
        canonical(hyphenated(bytes)),
        spelled_bytes(hyphenated(bytes)) == Some(bytes),
{
    let text = hyphenated(bytes);
    assert forall|place: int| 0 <= place < 36 implies if hyphen_at(place) {
        #[trigger] text[place] == '-'
    } else {
        ('0' <= text[place] && text[place] <= '9') || ('a' <= text[place] && text[place] <= 'f')
    } by {
        lemma_lower_digit(digit_of(bytes, digit_at(place)));
    }
    let digits = unhyphenated(text)->0;
    assert forall|i: int| 0 <= i < 32 implies #[trigger] digits[i] == lower_digit(
        digit_of(bytes, i),
    ) by {}
    assert forall|i: int| 0 <= i < 32 implies (#[trigger] digit_value(digits[i])) == Some(
        digit_of(bytes, i),
    ) by {
        lemma_lower_digit(digit_of(bytes, i));
    }
    let read = spelled_bytes(text)->0;
    assert forall|j: int| 0 <= j < 16 implies #[trigger] read[j] == bytes[j] by {
        assert(digit_value(digits[2 * j]) == Some(digit_of(bytes, 2 * j)));
        assert(digit_value(digits[2 * j + 1]) == Some(digit_of(bytes, 2 * j + 1)));
    }
    assert(read =~= bytes);
}

/// A canonical spelling is the spelling of the bytes that it stands for.
pub proof fn law_canonical_spelling_is_written_back(text: Seq<char>)
    requires
        canonical(text),
    ensures
        spelled_bytes(text) matches Some(bytes) && bytes.len() == 16 && hyphenated(bytes) == text,
{
    assert(text[8] == '-' && text[13] == '-' && text[18] == '-' && text[23] == '-');
    let digits = unhyphenated(text)->0;
    assert forall|place: int| 0 <= place < 36 && !hyphen_at(place) implies digits[digit_at(place)]
        == #[trigger] text[place] by {}
    assert forall|i: int| 0 <= i < 32 implies (#[trigger] digit_value(digits[i])) is Some
        && 0 <= digit_value(digits[i])->0 < 16 && lower_digit(digit_value(digits[i])->0)
        == digits[i] by {
        let place: int = if i < 8 {
            i
        } else if i < 12 {
            i + 1
        } else if i < 16 {
            i + 2
        } else if i < 20 {
            i + 3
        } else {
            i + 4
        };
        assert(digit_at(place) == i && !hyphen_at(place));
        assert(digits[i] == text[place]);
        lemma_digit_round_trip(text[place]);
    }
    let bytes = spelled_bytes(text)->0;
    let written = hyphenated(bytes);
    assert forall|place: int| 0 <= place < 36 implies #[trigger] written[place] == text[place] by {
        if !hyphen_at(place) {
            let i = digit_at(place);
            let j = i / 2;
            assert(digit_value(digits[2 * j]) is Some);
            assert(digit_value(digits[2 * j + 1]) is Some);
            assert(i == 2 * j || i == 2 * j + 1);
            assert(digit_of(bytes, i) == digit_value(digits[i])->0);
            assert(digits[i] == text[place]);
        }
    }
    assert(written =~= text);
}

/// Accepts a thread identifier in its canonical spelling, and no other.
pub fn validate_thread_id(thread_id: &str) -> (validated: Result<String, ProviderLaunchError>)
    ensures
        validated matches Ok(text) ==> text@ == thread_id@,
        validated is Ok <==> canonical(thread_id@),
        validated matches Err(error) ==> error == ProviderLaunchError::InvalidArgument,
{
    proof {
        if canonical(thread_id@) {
            law_canonical_spelling_is_written_back(thread_id@);
        }
    }
    let parsed = match parse_uuid(thread_id) {
        Ok(parsed) => parsed,
        Err(_) => {
            return Err(ProviderLaunchError::InvalidArgument);
        },
    };
    let owned = thread_id.to_owned();
    if uuid_text(parsed) != owned {
        return Err(ProviderLaunchError::InvalidArgument);
    }
    proof {
        law_spelling_round_trip(parsed@);
    }
    Ok(owned)
}

} // verus!
