//! Hexadecimal text for binary data: the prefix `0x`, then two digits for
//! each byte, the high half first.

use vstd::prelude::*;
use vstd::string::*;

verus! {

/// The lower-case digit that stands for `value`, for `0 <= value < 16`.
pub open spec fn hex_digit(value: int) -> char {
    if value == 0 {
        '0'
    } else if value == 1 {
        '1'
    } else if value == 2 {
        '2'
    } else if value == 3 {
        '3'
    } else if value == 4 {
        '4'
    } else if value == 5 {
        '5'
    } else if value == 6 {
        '6'
    } else if value == 7 {
        '7'
    } else if value == 8 {
        '8'
    } else if value == 9 {
        '9'
    } else if value == 10 {
        'a'
    } else if value == 11 {
        'b'
    } else if value == 12 {
        'c'
    } else if value == 13 {
        'd'
    } else if value == 14 {
        'e'
    } else {
        'f'
    }
}

/// The two digits of one byte.
pub open spec fn hex_byte(byte: u8) -> Seq<char> {
    seq![hex_digit(byte as int / 16), hex_digit(byte as int % 16)]
}

/// The digits of `data`, two for each byte, in order.
pub open spec fn hex_digits(data: Seq<u8>) -> Seq<char>
    decreases data.len(),
{
    if data.len() == 0 {
        Seq::empty()
    } else {
        hex_digits(data.drop_last()) + hex_byte(data.last())
    }
}

/// The text that stands for `data`: `0x` and then its digits.
pub open spec fn hex_encoding(data: Seq<u8>) -> Seq<char> {
    seq!['0', 'x'] + hex_digits(data)
}

/// The value of the digit with Unicode code `code`, in either case, if it
/// is one.
pub open spec fn hex_code_value(code: int) -> Option<int> {
    if 48 <= code <= 57 {
        Some(code - 48)
    } else if 97 <= code <= 102 {
        Some(code - 87)
    } else if 65 <= code <= 70 {
        Some(code - 55)
    } else {
        None
    }
}

/// The value of the digit `c`, in either case, if it is one.
pub open spec fn hex_value(c: char) -> Option<int> {
    hex_code_value(c as int)
}

/// Every character of `text` is a hexadecimal digit.
pub open spec fn all_hex_digits(text: Seq<char>) -> bool {
    forall|i: int| 0 <= i < text.len() ==> (#[trigger] hex_value(text[i])) is Some
}

/// `text` begins with `0x`.
pub open spec fn has_hex_prefix(text: Seq<char>) -> bool {
    text.len() >= 2 && text[0] == '0' && text[1] == 'x'
}

/// The byte that the digits `high` and `low` stand for.
pub open spec fn hex_pair_value(high: char, low: char) -> u8 {
    (hex_value(high)->0 * 16 + hex_value(low)->0) as u8
}

/// The bytes that an even number of digits stand for.
pub open spec fn unhex_digits(digits: Seq<char>) -> Seq<u8>
    decreases digits.len(),
{
    if digits.len() < 2 {
        Seq::empty()
    } else {
        unhex_digits(digits.subrange(0, digits.len() - 2)).push(
            hex_pair_value(digits[digits.len() - 2], digits[digits.len() - 1]),
        )
    }
}

/// Why a text is not the hexadecimal form of any data.
#[derive(Clone, Copy, Debug, PartialEq, Eq, Structural)]
pub enum HexError {
    /// The text does not begin with `0x`.
    MissingPrefix,
    /// A character after the prefix is not a hexadecimal digit.
    InvalidDigit,
    /// The digits are all valid, but their number is odd.
    OddLength,
}

/// The data that `text` stands for, or why it stands for none.
pub open spec fn hex_decoding(text: Seq<char>) -> Result<Seq<u8>, HexError> {
    if !has_hex_prefix(text) {
        Err(HexError::MissingPrefix)
    } else if !all_hex_digits(text.skip(2)) {
        Err(HexError::InvalidDigit)
    } else if text.len() % 2 != 0 {
        Err(HexError::OddLength)
    } else {
        Ok(unhex_digits(text.skip(2)))
    }
}

proof fn lemma_alphabet()
    ensures
        "0123456789abcdef"@.len() == 16,
        is_ascii("0123456789abcdef"),
        forall|value: int|
            0 <= value < 16 ==> #[trigger] "0123456789abcdef"@[value] == hex_digit(value),
{
    reveal_strlit("0123456789abcdef");
}

/// The one-character text of the digit for `value`.
fn digit_text(value: u8) -> (text: &'static str)
    requires
        value < 16,
    ensures
        text@ == seq![hex_digit(value as int)],
{
    let alphabet: &'static str = "0123456789abcdef";
    proof {
        lemma_alphabet();
    }
    let at: usize = value as usize;
    let text = alphabet.substring_ascii(at, at + 1);
    assert(text@ =~= seq![hex_digit(value as int)]);
    text
}

/// Encodes `data` as `0x` followed by two lower-case digits for each byte.
/// No data gives `0x` alone.
pub fn to_hex(data: &[u8]) -> (text: String)
    ensures
        text@ == hex_encoding(data@),
{
    let mut text = String::from_str("0x");
    proof {
        reveal_strlit("0x");
        assert(text@ =~= hex_encoding(data@.take(0)));
    }
    let mut i: usize = 0;
    while i < data.len()
        invariant
            i <= data.len(),
            text@ == hex_encoding(data@.take(i as int)),
        decreases data.len() - i,
    {
        let byte: u8 = data[i];
        text.append(digit_text(byte / 16));
        text.append(digit_text(byte % 16));
        proof {
            let before = data@.take(i as int);
            let after = data@.take(i as int + 1);
            assert(after.drop_last() =~= before);
            assert(after.last() == byte);
            assert(text@ =~= hex_encoding(after));
        }
        i += 1;
    }
    proof {
        assert(data@.take(data.len() as int) =~= data@);
    }
    text
}

/// The value of the digit with code `byte`, in either case, if it is one.
fn digit_of(byte: u8) -> (value: Option<u8>)
    ensures
        match value {
            Some(v) => hex_code_value(byte as int) == Some(v as int) && v < 16,
            None => hex_code_value(byte as int) is None,
        },
{
    if 48 <= byte && byte <= 57 {
        Some(byte - 48)
    } else if 97 <= byte && byte <= 102 {
        Some(byte - 87)
    } else if 65 <= byte && byte <= 70 {
        Some(byte - 55)
    } else {
        None
    }
}

/// Decodes the text that [`to_hex`] gives, with digits in either case.
///
/// The text must begin with `0x` and go on with an even number of
/// hexadecimal digits; the error says which of these fails first.
pub fn from_hex(text: &str) -> (data: Result<Vec<u8>, HexError>)
    ensures
        match data {
            Ok(bytes) => hex_decoding(text@) == Ok::<Seq<u8>, HexError>(bytes@),
            Err(e) => hex_decoding(text@) == Err::<Seq<u8>, HexError>(e),
        },
{
    if !text.is_ascii() {
        let chars: usize = text.unicode_len();
        if chars >= 2 && text.get_char(0) == '0' && text.get_char(1) == 'x' {
            proof {
                let at = choose|i: int|
                    0 <= i < text@.len() && !('\0' <= #[trigger] text@[i] <= '\u{7f}');
                assert(hex_value(text@.skip(2)[at - 2]) is None);
            }
            return Err(HexError::InvalidDigit);
        }
        return Err(HexError::MissingPrefix);
    }
    let bytes = text.as_bytes();
    let len: usize = bytes.len();
    proof {
        is_ascii_spec_bytes(text);
        assert(len == text@.len());
        assert(forall|i: int| 0 <= i < len ==> bytes@[i] == #[trigger] text@[i] as u8);
    }
    if len < 2 || bytes[0] != 48 || bytes[1] != 120 {
        return Err(HexError::MissingPrefix);
    }
    assert(has_hex_prefix(text@));
    let mut k: usize = 2;
    while k < len
        invariant
            2 <= k <= len,
            has_hex_prefix(text@),
            len == text@.len(),
            len == bytes@.len(),
            is_ascii(text),
            forall|i: int| 0 <= i < len ==> bytes@[i] == #[trigger] text@[i] as u8,
            forall|i: int| 2 <= i < k ==> (#[trigger] hex_value(text@[i])) is Some,
        decreases len - k,
    {
        if digit_of(bytes[k]).is_none() {
            proof {
                assert(hex_value(text@.skip(2)[k - 2]) is None);
            }
            return Err(HexError::InvalidDigit);
        }
        k += 1;
    }
    proof {
        assert forall|i: int| 0 <= i < text@.skip(2).len() implies (#[trigger] hex_value(
            text@.skip(2)[i],
        )) is Some by {
            assert(hex_value(text@[i + 2]) is Some);
        }
    }
    if len % 2 != 0 {
        return Err(HexError::OddLength);
    }
    let mut out: Vec<u8> = Vec::new();
    let mut k: usize = 2;
    proof {
        assert(text@.subrange(2, 2).len() == 0);
    }
    while k < len
        invariant
            2 <= k <= len,
            k % 2 == 0,
            has_hex_prefix(text@),
            len % 2 == 0,
            len == text@.len(),
            len == bytes@.len(),
            is_ascii(text),
            forall|i: int| 0 <= i < len ==> bytes@[i] == #[trigger] text@[i] as u8,
            forall|i: int| 2 <= i < len ==> (#[trigger] hex_value(text@[i])) is Some,
            out@ == unhex_digits(text@.subrange(2, k as int)),
        decreases len - k,
    {
        let high = digit_of(bytes[k]);
        let low = digit_of(bytes[k + 1]);
        proof {
            assert(hex_value(text@[k as int]) is Some);
            assert(hex_value(text@[k + 1]) is Some);
        }
        match (high, low) {
            (Some(h), Some(l)) => {
                out.push(h * 16 + l);
                proof {
                    let done = text@.subrange(2, k as int);
                    let more = text@.subrange(2, k + 2);
                    assert(more.subrange(0, more.len() - 2) =~= done);
                    assert(more[more.len() - 2] == text@[k as int]);
                    assert(more[more.len() - 1] == text@[k + 1]);
                }
            },
            _ => {
                assert(false);
            },
        }
        k += 2;
    }
    proof {
        assert(text@.subrange(2, len as int) =~= text@.skip(2));
    }
    Ok(out)
}

/// The digits of `data` are two for each byte, and each is a digit.
pub proof fn lemma_hex_digits_are_digits(data: Seq<u8>)
    ensures
        hex_digits(data).len() == 2 * data.len(),
        all_hex_digits(hex_digits(data)),
    decreases data.len(),
{
    if data.len() > 0 {
        lemma_hex_digits_are_digits(data.drop_last());
        let byte = data.last();
        assert(hex_value(hex_digit(byte as int / 16)) is Some);
        assert(hex_value(hex_digit(byte as int % 16)) is Some);
    }
}

/// Reading back the digits of `data` gives `data`.
pub proof fn lemma_unhex_hex_digits(data: Seq<u8>)
    ensures
        unhex_digits(hex_digits(data)) == data,
    decreases data.len(),
{
    if data.len() > 0 {
        let front = data.drop_last();
        let byte = data.last();
        let digits = hex_digits(data);
        lemma_unhex_hex_digits(front);
        lemma_hex_digits_are_digits(front);
        assert(digits.subrange(0, digits.len() - 2) =~= hex_digits(front));
        assert(hex_value(hex_digit(byte as int / 16)) == Some(byte as int / 16));
        assert(hex_value(hex_digit(byte as int % 16)) == Some(byte as int % 16));
        assert(hex_pair_value(digits[digits.len() - 2], digits[digits.len() - 1]) == byte);
        assert(front.push(byte) =~= data);
    }
}

/// Encoding any data and decoding the text recovers the data exactly, and
/// the encoding of no data is `0x`.
pub proof fn lemma_hex_round_trip(data: Seq<u8>)
    ensures
        hex_decoding(hex_encoding(data)) == Ok::<Seq<u8>, HexError>(data),
        hex_encoding(Seq::<u8>::empty()) == seq!['0', 'x'],
        hex_encoding(Seq::<u8>::empty()) == "0x"@,
{
    let text = hex_encoding(data);
    lemma_hex_digits_are_digits(data);
    lemma_unhex_hex_digits(data);
    assert(text.skip(2) =~= hex_digits(data));
    assert(hex_encoding(Seq::<u8>::empty()) =~= seq!['0', 'x']);
    reveal_strlit("0x");
    assert("0x"@ =~= seq!['0', 'x']);
}

} // verus!
