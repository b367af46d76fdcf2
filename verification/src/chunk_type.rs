//! The 4-byte chunk-type identifier: construction from raw bytes or text,
//! the four bit-derived properties, and byte-exact formatting.

use vstd::prelude::*;

verus! {

/// Why a piece of text was rejected as a chunk-type identifier.
#[derive(Clone, Copy, Debug, PartialEq, Eq, Structural)]
pub enum FormatError {
    /// The text is not exactly four characters long.
    BadLength,
    /// The text contains a character that is not an ASCII letter.
    InvalidCharacter,
}

/// Holds when `c` is an ASCII letter, `A`-`Z` or `a`-`z`.
pub open spec fn is_letter_char(c: char) -> bool {
    ('A' <= c && c <= 'Z') || ('a' <= c && c <= 'z')
}

/// Holds when `text` is acceptable as a chunk-type identifier: exactly four
/// characters, each an ASCII letter.
pub open spec fn spec_text_ok(text: Seq<char>) -> bool {
    &&& text.len() == 4
    &&& forall|i: int| 0 <= i < 4 ==> is_letter_char(#[trigger] text[i])
}

/// The bytes that a piece of text stores: each character's code, truncated
/// to a byte. Applied only to ASCII text, where no truncation occurs.
pub open spec fn bytes_of_text(text: Seq<char>) -> Seq<u8> {
    text.map(|_i: int, c: char| c as u8)
}

/// The text that a byte sequence renders as: each byte read as one
/// character.
pub open spec fn text_of_bytes(bytes: Seq<u8>) -> Seq<char> {
    bytes.map(|_i: int, b: u8| b as char)
}

/// Holds when bit 5 (value `0x20`) of `b` is clear. For an ASCII letter
/// this is exactly the uppercase case; on any other byte it simply reports
/// whatever that bit happens to be.
pub open spec fn bit5_clear(b: u8) -> bool {
    b & 0x20 == 0
}

/// Holds when `b` is an ASCII letter, `A`-`Z` or `a`-`z`.
pub open spec fn is_letter_byte(b: u8) -> bool {
    (65 <= b && b <= 90) || (97 <= b && b <= 122)
}

/// Holds when `bytes` is a conforming chunk type: four ASCII letters whose
/// third byte has its reserved bit (bit 5) clear.
pub open spec fn spec_valid(bytes: Seq<u8>) -> bool {
    &&& bytes.len() == 4
    &&& bit5_clear(bytes[2])
    &&& forall|i: int| 0 <= i < 4 ==> is_letter_byte(#[trigger] bytes[i])
}

/// A chunk-type identifier: exactly four raw bytes, immutable once built.
///
/// Its view is the sequence of the four stored bytes, in order.
#[derive(Clone, Copy, Debug, PartialEq, Eq, Structural)]
pub struct ChunkType {
    first_byte: u8,
    second_byte: u8,
    third_byte: u8,
    fourth_byte: u8,
}

impl View for ChunkType {
    type V = Seq<u8>;

    closed spec fn view(&self) -> Seq<u8> {
        seq![self.first_byte, self.second_byte, self.third_byte, self.fourth_byte]
    }
}

impl ChunkType {
    /// The identifier that `from_bytes` builds from four bytes.
    pub closed spec fn spec_from_bytes(bytes: Seq<u8>) -> ChunkType {
        ChunkType {
            first_byte: bytes[0],
            second_byte: bytes[1],
            third_byte: bytes[2],
            fourth_byte: bytes[3],
        }
    }

    /// Stores the four bytes verbatim; never fails, so that any value read
    /// from a stream can be represented and later judged by `is_valid`.
    pub fn from_bytes(bytes: [u8; 4]) -> (result: ChunkType)
        ensures
            result == ChunkType::spec_from_bytes(bytes@),
            result@ == bytes@,
    {
        let result = ChunkType {
            first_byte: bytes[0],
            second_byte: bytes[1],
            third_byte: bytes[2],
            fourth_byte: bytes[3],
        };
        proof {
            assert(result@ =~= bytes@);
        }
        result
    }

    /// Returns the four stored bytes unchanged.
    pub fn bytes(&self) -> (result: [u8; 4])
        ensures
            result@ == self@,
    {
        let result = [self.first_byte, self.second_byte, self.third_byte, self.fourth_byte];
        proof {
            assert(result@ =~= self@);
        }
        result
    }

    /// Validates `text` as a chunk-type identifier and stores its four
    /// characters' bytes verbatim, case preserved. Rejects text that is not
    /// exactly four characters long, then text holding any character that
    /// is not an ASCII letter; accepts everything else.
    pub fn from_text(text: &str) -> (result: Result<ChunkType, FormatError>)
        ensures
            text@.len() != 4 ==> result == Err::<ChunkType, FormatError>(FormatError::BadLength),
            text@.len() == 4 && !spec_text_ok(text@) ==> result == Err::<ChunkType, FormatError>(
                FormatError::InvalidCharacter,
            ),
            spec_text_ok(text@) ==> (result matches Ok(t) && t == ChunkType::spec_from_bytes(
                bytes_of_text(text@),
            ) && t@ == bytes_of_text(text@)),
    {
        if text.unicode_len() != 4 {
            return Err(FormatError::BadLength);
        }
        let c0 = text.get_char(0);
        let c1 = text.get_char(1);
        let c2 = text.get_char(2);
        let c3 = text.get_char(3);
        if !(is_letter_character(c0) && is_letter_character(c1) && is_letter_character(c2)
            && is_letter_character(c3)) {
            return Err(FormatError::InvalidCharacter);
        }
        let result = ChunkType {
            first_byte: c0 as u8,
            second_byte: c1 as u8,
            third_byte: c2 as u8,
            fourth_byte: c3 as u8,
        };
        proof {
            assert(result@ =~= bytes_of_text(text@));
        }
        Ok(result)
    }

    /// A chunk is critical (a reader must understand it) when bit 5 of its
    /// first byte is clear, i.e. the first letter is uppercase.
    pub fn is_critical(&self) -> (result: bool)
        ensures
            result == bit5_clear(self@[0]),
    {
        self.first_byte & 0x20 == 0
    }

    /// A chunk type is public (standardized) when bit 5 of its second byte
    /// is clear, i.e. the second letter is uppercase.
    pub fn is_public(&self) -> (result: bool)
        ensures
            result == bit5_clear(self@[1]),
    {
        self.second_byte & 0x20 == 0
    }

    /// The reserved bit is valid when bit 5 of the third byte is clear,
    /// i.e. the third letter is uppercase.
    pub fn is_reserved_bit_valid(&self) -> (result: bool)
        ensures
            result == bit5_clear(self@[2]),
    {
        self.third_byte & 0x20 == 0
    }

    /// A chunk is safe to copy by unaware editors when bit 5 of its fourth
    /// byte is set, i.e. the fourth letter is lowercase.
    pub fn is_safe_to_copy(&self) -> (result: bool)
        ensures
            result == !bit5_clear(self@[3]),
    {
        self.fourth_byte & 0x20 != 0
    }

    /// Renders the four stored bytes as a four-character string, using
    /// their literal values: the exact text the identifier was parsed
    /// from, never a reconstruction from the derived bit flags.
    pub fn to_text(&self) -> (result: String)
        ensures
            result@ == text_of_bytes(self@),
    {
        let mut result = String::new();
        push_char(&mut result, self.first_byte as char);
        push_char(&mut result, self.second_byte as char);
        push_char(&mut result, self.third_byte as char);
        push_char(&mut result, self.fourth_byte as char);
        proof {
            assert(result@ =~= text_of_bytes(self@));
        }
        result
    }

    /// The identifier conforms to the format: all four bytes are ASCII
    /// letters and the reserved bit is valid.
    pub fn is_valid(&self) -> (result: bool)
        ensures
            result == spec_valid(self@),
    {
        let result = self.is_reserved_bit_valid()
            && is_letter(self.first_byte)
            && is_letter(self.second_byte)
            && is_letter(self.third_byte)
            && is_letter(self.fourth_byte);
        proof {
            if result {
                assert(forall|i: int| 0 <= i < 4 ==> is_letter_byte(#[trigger] self@[i]));
            }
        }
        result
    }
}

/// Round trip over raw bytes: an identifier built from any four bytes
/// yields exactly those bytes back.
pub proof fn lemma_bytes_round_trip(bytes: Seq<u8>)
    requires
        bytes.len() == 4,
    ensures
        ChunkType::spec_from_bytes(bytes)@ == bytes,
{
    assert(ChunkType::spec_from_bytes(bytes)@ =~= bytes);
}

/// Round trip over text: any four-letter ASCII text accepted by
/// `from_text` is rendered back unchanged by `to_text`.
pub proof fn lemma_text_round_trip(text: Seq<char>)
    requires
        spec_text_ok(text),
    ensures
        text_of_bytes(bytes_of_text(text)) == text,
{
    assert forall|i: int| 0 <= i < 4 implies text_of_bytes(bytes_of_text(text))[i] == text[i] by {
        assert(is_letter_char(text[i]));
    }
    assert(text_of_bytes(bytes_of_text(text)) =~= text);
}

/// Equality is byte-exact: two identifiers are equal exactly when all
/// four stored bytes match, since case carries semantic flags.
pub proof fn lemma_eq_is_byte_eq(a: ChunkType, b: ChunkType)
    ensures
        (a == b) <==> (a@ == b@),
{
    if a@ == b@ {
        assert(a@[0] == b@[0] && a@[1] == b@[1] && a@[2] == b@[2] && a@[3] == b@[3]);
    } else {
        assert(!(a@ =~= b@));
    }
}

/// Relies on String::push: appends the given character to the end of the
/// string.
#[verifier::external_body]
fn push_char(s: &mut String, c: char)
    ensures
        final(s)@ == old(s)@.push(c),
{
    s.push(c)
}

/// Decides `is_letter_char` on one character.
fn is_letter_character(c: char) -> (result: bool)
    ensures
        result == is_letter_char(c),
{
    ('A' <= c && c <= 'Z') || ('a' <= c && c <= 'z')
}

/// Decides `is_letter_byte` on one byte.
fn is_letter(b: u8) -> (result: bool)
    ensures
        result == is_letter_byte(b),
{
    (65 <= b && b <= 90) || (97 <= b && b <= 122)
}

} // verus!
