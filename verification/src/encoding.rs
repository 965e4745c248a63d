//! Public keys and macaroons as hexadecimal text.
use vstd::prelude::*;
use vstd::string::*;
use vstd::utf8::*;

verus! {

/// Why a text is no hexadecimal encoding.
#[derive(Clone, Copy, Debug, PartialEq, Eq, Structural)]
pub enum HexError {
    /// The byte at `index`, read as a character, is no hexadecimal digit.
    InvalidHexCharacter { c: char, index: usize },
    /// The text does not split into pairs of digits.
    OddLength,
    /// The text does not fit a container of fixed size.
    InvalidStringLength,
}

/// Whether a byte is a hexadecimal digit, in either case.
pub open spec fn is_hex_digit(b: u8) -> bool {
    48 <= b <= 57 || 65 <= b <= 70 || 97 <= b <= 102
}

/// The value of a hexadecimal digit.
pub open spec fn hex_value(b: u8) -> int {
    if b <= 57 {
        b - 48
    } else if b <= 70 {
        b - 55
    } else {
        b - 87
    }
}

/// The lower-case hexadecimal digit that stands for `n`.
pub open spec fn hex_digit(n: int) -> u8 {
    if n < 10 {
        (n + 48) as u8
    } else {
        (n + 87) as u8
    }
}

/// The position of the first byte that is no hexadecimal digit, or the length
/// where all are.
pub open spec fn first_non_hex(s: Seq<u8>) -> nat
    decreases s.len(),
{
    if s.len() == 0 {
        0
    } else if !is_hex_digit(s[0]) {
        0
    } else {
        1 + first_non_hex(s.skip(1))
    }
}

/// The bytes that pairs of hexadecimal digits stand for.
pub open spec fn hex_bytes(s: Seq<u8>) -> Seq<u8> {
    Seq::new(s.len() / 2, |i: int| (16 * hex_value(s[2 * i]) + hex_value(s[2 * i + 1])) as u8)
}

/// What the hexadecimal text `s`, given as its bytes, decodes to.
pub open spec fn hex_decoded(s: Seq<u8>) -> Result<Seq<u8>, HexError> {
    if s.len() % 2 != 0 {
        Err(HexError::OddLength)
    } else if first_non_hex(s) < s.len() {
        Err(
            HexError::InvalidHexCharacter {
                c: s[first_non_hex(s) as int] as char,
                index: first_non_hex(s) as usize,
            },
        )
    } else {
        Ok(hex_bytes(s))
    }
}

/// The lower-case hexadecimal text of `data`, two digits for each byte.
pub open spec fn hex_encoded(data: Seq<u8>) -> Seq<char> {
    Seq::new(
        2 * data.len(),
        |i: int|
            if i % 2 == 0 {
                hex_digit(data[i / 2] as int / 16) as char
            } else {
                hex_digit(data[i / 2] as int % 16) as char
            },
    )
}

/// A result with the vector in it replaced by its contents.
pub open spec fn bytes_view(r: Result<Vec<u8>, HexError>) -> Result<Seq<u8>, HexError> {
    match r {
        Ok(v) => Ok(v@),
        Err(e) => Err(e),
    }
}

/// Calls `hex::decode`. A text of odd length is refused; else the first byte
/// that is no digit is reported; else each pair of digits gives one byte.
#[verifier::external_body]
fn hex_decode(text: &str) -> (r: Result<Vec<u8>, HexError>)
    ensures
        bytes_view(r) == hex_decoded(text.spec_bytes()),
{
    match hex::decode(text) {
        Ok(bytes) => Ok(bytes),
        Err(hex::FromHexError::InvalidHexCharacter { c, index }) => {
            Err(HexError::InvalidHexCharacter { c, index })
        }
        Err(hex::FromHexError::OddLength) => Err(HexError::OddLength),
        Err(hex::FromHexError::InvalidStringLength) => Err(HexError::InvalidStringLength),
    }
}

/// Calls `hex::encode`: two lower-case digits for each byte.
#[verifier::external_body]
fn hex_encode(data: &[u8]) -> (text: String)
    ensures
        text@ == hex_encoded(data@),
{
    hex::encode(data)
}

/// The bytes of a node's public key.
pub fn node_pubkey_bytes(pubkey: &str) -> (r: Result<Vec<u8>, HexError>)
    ensures
        bytes_view(r) == hex_decoded(encode_utf8(pubkey@)),
{
    hex_decode(pubkey)
}

/// The text in which a macaroon is sent along with a request.
pub fn macaroon_hex(macaroon: &[u8]) -> (text: String)
    ensures
        text@ == hex_encoded(macaroon@),
        text@.len() == 2 * macaroon@.len(),
        hex_decoded(encode_utf8(text@)) == Ok::<Seq<u8>, HexError>(macaroon@),
{
    proof {
        law_decoding_undoes_encoding(macaroon@);
    }
    hex_encode(macaroon)
}

/// `first_non_hex` is the length exactly where every byte is a digit.
proof fn lemma_first_non_hex(s: Seq<u8>)
    ensures
        first_non_hex(s) <= s.len(),
        forall|i: int| 0 <= i < first_non_hex(s) ==> is_hex_digit(s[i]),
        first_non_hex(s) < s.len() ==> !is_hex_digit(s[first_non_hex(s) as int]),
    decreases s.len(),
{
    if s.len() > 0 && is_hex_digit(s[0]) {
        let rest = s.skip(1);
        lemma_first_non_hex(rest);
        assert forall|i: int| 0 <= i < first_non_hex(s) implies is_hex_digit(s[i]) by {
            if i > 0 {
                assert(s[i] == rest[i - 1]);
            }
        }
    }
}

/// What was encoded decodes to what it was.
pub proof fn law_decoding_undoes_encoding(data: Seq<u8>)
    ensures
        hex_decoded(encode_utf8(hex_encoded(data))) == Ok::<Seq<u8>, HexError>(data),
{
    let text = hex_encoded(data);
    assert(is_ascii_chars(text));
    is_ascii_chars_encode_utf8(text);
    let bytes = encode_utf8(text);
    assert(bytes.len() == 2 * data.len());
    assert forall|i: int| 0 <= i < bytes.len() implies is_hex_digit(bytes[i]) by {
        assert(bytes[i] == text[i] as u8);
    }
    lemma_first_non_hex(bytes);
    assert(hex_bytes(bytes) =~= data) by {
        assert forall|i: int| 0 <= i < data.len() implies hex_bytes(bytes)[i] == data[i] by {
            assert(bytes[2 * i] == text[2 * i] as u8);
            assert(bytes[2 * i + 1] == text[2 * i + 1] as u8);
            assert((2 * i) / 2 == i && (2 * i + 1) / 2 == i);
        }
    }
}

/// A text decodes exactly where its bytes are hexadecimal digits in pairs, each
/// pair to one byte. Of the other texts those of odd length are told apart first;
/// of the rest, the first byte that is no digit is told.
pub proof fn law_pairs_of_digits_decode(s: Seq<u8>)
    ensures
        s.len() % 2 == 1 <==> hex_decoded(s) == Err::<Seq<u8>, HexError>(HexError::OddLength),
        hex_decoded(s) is Ok <==> s.len() % 2 == 0 && forall|i: int|
            0 <= i < s.len() ==> is_hex_digit(#[trigger] s[i]),
        hex_decoded(s) matches Ok(bytes) ==> 2 * bytes.len() == s.len() && forall|i: int|
            0 <= i < bytes.len() ==> #[trigger] bytes[i] == 16 * hex_value(s[2 * i]) + hex_value(
                s[2 * i + 1],
            ),
        hex_decoded(s) matches Err(HexError::InvalidHexCharacter { c, index }) ==> s.len()
            <= usize::MAX ==> index < s.len() && c == s[index as int] as char && !is_hex_digit(
            s[index as int],
        ) && forall|i: int| 0 <= i < index ==> is_hex_digit(#[trigger] s[i]),
{
    lemma_first_non_hex(s);
    if hex_decoded(s) is Ok {
        let bytes = hex_decoded(s)->Ok_0;
        assert forall|i: int| 0 <= i < bytes.len() implies #[trigger] bytes[i] == 16 * hex_value(
            s[2 * i],
        ) + hex_value(s[2 * i + 1]) by {
            assert(is_hex_digit(s[2 * i]) && is_hex_digit(s[2 * i + 1]));
        }
    }
}

/// The digits stand for 0 to 15, in either case.
pub proof fn law_digits_have_values(b: u8)
    ensures
        is_hex_digit(b) <==> 48 <= b <= 57 || 65 <= b <= 70 || 97 <= b <= 102,
        48 <= b <= 57 ==> hex_value(b) == b - 48,
        65 <= b <= 70 ==> hex_value(b) == b - 65 + 10,
        97 <= b <= 102 ==> hex_value(b) == b - 97 + 10,
{
}

} // verus!
