use vstd::prelude::*;
use vstd::string::StringSliceAdditionalSpecFns;
use vstd::utf8::*;

verus! {

/// Why a text is not a hexadecimal encoding of bytes.
#[derive(Debug, Clone, Copy, PartialEq, Eq, Structural)]
pub enum HexError {
    /// A byte that is not a hexadecimal digit, and its position.
    InvalidHexCharacter { c: char, index: usize },
    /// The text has an odd number of bytes.
    OddLength,
    /// The text does not fit the length of a fixed-size output.
    InvalidStringLength,
}

/// The lowercase hexadecimal digit for a value below 16.
pub open spec fn hex_digit_char(n: int) -> char
    recommends
        0 <= n < 16,
{
    if n < 10 {
        (48 + n) as char
    } else {
        (87 + n) as char
    }
}

/// Lowercase hexadecimal text of a byte sequence: two digits per byte,
/// the high nibble first.
pub open spec fn hex_encode_spec(bytes: Seq<u8>) -> Seq<char> {
    Seq::new(
        2 * bytes.len(),
        |i: int|
            if i % 2 == 0 {
                hex_digit_char(bytes[i / 2] as int / 16)
            } else {
                hex_digit_char(bytes[i / 2] as int % 16)
            },
    )
}

/// `0-9`, `A-F` or `a-f` as an ASCII byte.
pub open spec fn is_hex_byte(c: u8) -> bool {
    (48 <= c <= 57) || (65 <= c <= 70) || (97 <= c <= 102)
}

/// The value of a hexadecimal digit byte.
pub open spec fn hex_byte_value(c: u8) -> int
    recommends
        is_hex_byte(c),
{
    if c <= 57 {
        c - 48
    } else if c <= 70 {
        c - 55
    } else {
        c - 87
    }
}

pub open spec fn all_hex_bytes(bytes: Seq<u8>) -> bool {
    forall|i: int| 0 <= i < bytes.len() ==> is_hex_byte(#[trigger] bytes[i])
}

/// The position of the first byte that is not a hexadecimal digit.
pub open spec fn first_non_hex_index(bytes: Seq<u8>) -> int {
    choose|i: int|
        0 <= i < bytes.len() && !is_hex_byte(bytes[i]) && forall|j: int|
            0 <= j < i ==> is_hex_byte(#[trigger] bytes[j])
}

/// What decoding hexadecimal text (given by its bytes) yields: an error for
/// an odd length, else for the first byte that is no hexadecimal digit, else
/// one byte per pair of digits, the first digit of a pair being the high nibble.
pub open spec fn hex_decode_spec(text: Seq<u8>) -> Result<Seq<u8>, HexError> {
    if text.len() % 2 != 0 {
        Err(HexError::OddLength)
    } else if !all_hex_bytes(text) {
        let i = first_non_hex_index(text);
        Err(HexError::InvalidHexCharacter { c: text[i] as char, index: i as usize })
    } else {
        Ok(
            Seq::new(
                text.len() / 2,
                |j: int| (hex_byte_value(text[2 * j]) * 16 + hex_byte_value(text[2 * j + 1])) as u8,
            ),
        )
    }
}

/// Encodes bytes as lowercase hexadecimal text with `hex::encode`; the
/// contract claims the text is exactly two lowercase digits per byte, high
/// nibble first, as the crate's source writes them.
#[verifier::external_body]
pub(crate) fn hex_encode(data: &[u8]) -> (text: String)
    ensures
        text@ == hex_encode_spec(data@),
{
    hex::encode(data)
}

/// Decodes hexadecimal text with `hex::decode`, which reads the text's UTF-8
/// bytes; the contract claims the outcome `hex_decode_spec` describes, as the
/// crate's source computes it, with its error mapped variant by variant.
#[verifier::external_body]
pub(crate) fn hex_decode(text: &str) -> (r: Result<Vec<u8>, HexError>)
    ensures
        match r {
            Ok(bytes) => hex_decode_spec(text.spec_bytes()) == Ok::<Seq<u8>, HexError>(bytes@),
            Err(e) => hex_decode_spec(text.spec_bytes()) == Err::<Seq<u8>, HexError>(e),
        },
{
    match hex::decode(text) {
        Ok(bytes) => Ok(bytes),
        Err(hex::FromHexError::InvalidHexCharacter { c, index }) => Err(
            HexError::InvalidHexCharacter { c, index },
        ),
        Err(hex::FromHexError::OddLength) => Err(HexError::OddLength),
        Err(hex::FromHexError::InvalidStringLength) => Err(HexError::InvalidStringLength),
    }
}

/// The text that the `Display` impl of `hex::FromHexError` writes for an error.
pub uninterp spec fn hex_error_text(e: HexError) -> Seq<char>;

/// Renders a decoding error with the `Display` impl of `hex::FromHexError`;
/// the contract names the text and, for the two variants without fields,
/// states the fixed text that the crate's source writes.
#[verifier::external_body]
pub(crate) fn hex_error_message(e: HexError) -> (text: String)
    ensures
        text@ == hex_error_text(e),
        e is OddLength ==> text@ == "Odd number of digits"@,
        e is InvalidStringLength ==> text@ == "Invalid string length"@,
{
    let outside = match e {
        HexError::InvalidHexCharacter { c, index } => hex::FromHexError::InvalidHexCharacter {
            c,
            index,
        },
        HexError::OddLength => hex::FromHexError::OddLength,
        HexError::InvalidStringLength => hex::FromHexError::InvalidStringLength,
    };
    outside.to_string()
}

proof fn lemma_hex_digit_byte(n: int)
    requires
        0 <= n < 16,
    ensures
        is_hex_byte(hex_digit_char(n) as u8),
        hex_byte_value(hex_digit_char(n) as u8) == n,
        '\0' <= hex_digit_char(n) <= '\u{7f}',
{
}

/// Hexadecimal text is ASCII: its UTF-8 bytes are its characters, one each.
pub proof fn lemma_hex_text_is_ascii(bytes: Seq<u8>)
    ensures
        is_ascii_chars(hex_encode_spec(bytes)),
        encode_utf8(hex_encode_spec(bytes)).len() == 2 * bytes.len(),
        forall|i: int|
            0 <= i < 2 * bytes.len() ==> #[trigger] encode_utf8(hex_encode_spec(bytes))[i]
                == hex_encode_spec(bytes)[i] as u8,
{
    let t = hex_encode_spec(bytes);
    assert forall|i: int| 0 <= i < t.len() implies '\0' <= #[trigger] t[i] <= '\u{7f}' by {
        lemma_hex_digit_byte(bytes[i / 2] as int / 16);
        lemma_hex_digit_byte(bytes[i / 2] as int % 16);
    }
    is_ascii_chars_encode_utf8(t);
}

/// Decoding the UTF-8 bytes of the hexadecimal text of some bytes gives
/// those bytes back.
pub proof fn lemma_hex_round_trip(bytes: Seq<u8>)
    ensures
        hex_decode_spec(encode_utf8(hex_encode_spec(bytes))) == Ok::<Seq<u8>, HexError>(bytes),
{
    let t = hex_encode_spec(bytes);
    let e = encode_utf8(t);
    lemma_hex_text_is_ascii(bytes);
    assert forall|i: int| 0 <= i < e.len() implies is_hex_byte(#[trigger] e[i])
        && hex_byte_value(e[i]) == (if i % 2 == 0 {
        bytes[i / 2] as int / 16
    } else {
        bytes[i / 2] as int % 16
    }) by {
        assert(e[i] == t[i] as u8);
        lemma_hex_digit_byte(bytes[i / 2] as int / 16);
        lemma_hex_digit_byte(bytes[i / 2] as int % 16);
    }
    assert(e.len() % 2 == 0);
    let d = Seq::new(
        e.len() / 2,
        |j: int| (hex_byte_value(e[2 * j]) * 16 + hex_byte_value(e[2 * j + 1])) as u8,
    );
    assert forall|j: int| 0 <= j < bytes.len() implies d[j] == bytes[j] by {
        assert(hex_byte_value(e[2 * j]) == bytes[j] as int / 16);
        assert(hex_byte_value(e[2 * j + 1]) == bytes[j] as int % 16);
    }
    assert(d =~= bytes);
}

/// An ASCII capital letter turned into its small letter; any other character unchanged.
pub open spec fn ascii_lower(c: char) -> char {
    if 'A' <= c && c <= 'Z' {
        (c as int + 32) as char
    } else {
        c
    }
}

/// A text with its ASCII capital letters turned into small ones.
pub open spec fn ascii_lowercase(s: Seq<char>) -> Seq<char> {
    s.map_values(|c: char| ascii_lower(c))
}

proof fn lemma_small_scalar_is_ascii(c: char)
    requires
        has_width_1_encoding(c as u32),
    ensures
        '\0' <= c <= '\u{7f}',
{
}

proof fn lemma_small_bytes_are_ascii(t: Seq<char>)
    requires
        forall|i: int| 0 <= i < encode_utf8(t).len() ==> #[trigger] encode_utf8(t)[i] < 128,
    ensures
        is_ascii_chars(t),
    decreases t.len(),
{
    if t.len() > 0 {
        let first = encode_scalar(t[0] as u32);
        let rest = encode_utf8(t.drop_first());
        assert(encode_utf8(t) == first + rest);
        let v = t[0] as u32;
        assert(first[0] == encode_utf8(t)[0]);
        if !has_width_1_encoding(v) {
            let y2 = ((v >> 6) & 0x1F) as u8;
            let y3 = ((v >> 12) & 0x0F) as u8;
            let y4 = ((v >> 18) & 0x7) as u8;
            assert((0xC0u8 | y2) >= 0x80u8) by (bit_vector);
            assert((0xE0u8 | y3) >= 0x80u8) by (bit_vector);
            assert((0xF0u8 | y4) >= 0x80u8) by (bit_vector);
            assert(first[0] >= 128);
            assert(false);
        }
        lemma_small_scalar_is_ascii(t[0]);
        assert forall|i: int| 0 <= i < rest.len() implies #[trigger] rest[i] < 128 by {
            assert(rest[i] == encode_utf8(t)[first.len() + i]);
        }
        lemma_small_bytes_are_ascii(t.drop_first());
        assert forall|i: int| 0 <= i < t.len() implies '\0' <= #[trigger] t[i] <= '\u{7f}' by {
            if i > 0 {
                assert(t[i] == t.drop_first()[i - 1]);
                assert('\0' <= t.drop_first()[i - 1] <= '\u{7f}');
            } else {
                assert('\0' <= t[0] <= '\u{7f}');
            }
        }
    }
}

proof fn lemma_hex_byte_digit(c: char)
    requires
        '\0' <= c <= '\u{7f}',
        is_hex_byte(c as u8),
    ensures
        0 <= hex_byte_value(c as u8) < 16,
        hex_digit_char(hex_byte_value(c as u8)) == ascii_lower(c),
{
}

/// Encoding again the bytes that a hexadecimal text decodes to gives the
/// text back, with its capital letters made small.
pub proof fn lemma_hex_reencode(text: Seq<char>, bytes: Seq<u8>)
    requires
        hex_decode_spec(encode_utf8(text)) == Ok::<Seq<u8>, HexError>(bytes),
    ensures
        hex_encode_spec(bytes) == ascii_lowercase(text),
{
    let e = encode_utf8(text);
    assert(all_hex_bytes(e));
    assert forall|i: int| 0 <= i < e.len() implies #[trigger] e[i] < 128 by {
        assert(is_hex_byte(e[i]));
    }
    lemma_small_bytes_are_ascii(text);
    is_ascii_chars_encode_utf8(text);
    let h = hex_encode_spec(bytes);
    let l = ascii_lowercase(text);
    assert(bytes.len() == e.len() / 2);
    assert(h.len() == l.len());
    assert forall|i: int| 0 <= i < h.len() implies h[i] == l[i] by {
        let j = i / 2;
        assert(e[2 * j] == text[2 * j] as u8);
        assert(e[2 * j + 1] == text[2 * j + 1] as u8);
        assert(is_hex_byte(e[2 * j]) && is_hex_byte(e[2 * j + 1]));
        lemma_hex_byte_digit(text[2 * j]);
        lemma_hex_byte_digit(text[2 * j + 1]);
        let hi = hex_byte_value(e[2 * j]);
        let lo = hex_byte_value(e[2 * j + 1]);
        assert(bytes[j] == (hi * 16 + lo) as u8);
        assert(bytes[j] as int / 16 == hi);
        assert(bytes[j] as int % 16 == lo);
        if i % 2 == 0 {
            assert(i == 2 * j);
        } else {
            assert(i == 2 * j + 1);
        }
    }
    assert(h =~= l);
}

} // verus!
