//! The `ChunkType` value: four raw bytes, a letter-based validity rule, and
//! the boolean flags derived from bit index 5 of each byte.

use vstd::prelude::*;
use vstd::string::StrSliceExecFns;

verus! {

/// True when `b` is the code of an ASCII letter, `A`-`Z` or `a`-`z`.
pub open spec fn is_ascii_letter(b: u8) -> bool {
    (65 <= b && b <= 90) || (97 <= b && b <= 122)
}

/// True when `c` is an ASCII letter character.
pub open spec fn is_letter_char(c: char) -> bool {
    ('A' <= c && c <= 'Z') || ('a' <= c && c <= 'z')
}

/// True when `b` is the code of an uppercase ASCII letter, `A`-`Z`.
pub open spec fn is_uppercase_letter(b: u8) -> bool {
    65 <= b && b <= 90
}

/// True when bit index 5 (value 32) of `b` is set; for an ASCII letter this
/// says the letter is lowercase.
pub open spec fn bit_five_set(b: u8) -> bool {
    b & 32 != 0
}

/// True when `s` is a well-formed type code: exactly 4 bytes, all ASCII
/// letters, with the reserved bit (bit index 5 of the byte at position 2)
/// clear, i.e. the third letter uppercase.
pub open spec fn spec_is_valid(s: Seq<u8>) -> bool {
    &&& s.len() == 4
    &&& (forall|i: int| 0 <= i < s.len() ==> is_ascii_letter(#[trigger] s[i]))
    &&& !bit_five_set(s[2])
}

/// True when `s` is a text the text constructor accepts: exactly 4
/// characters, all ASCII letters.
pub open spec fn spec_is_valid_text(s: Seq<char>) -> bool {
    &&& s.len() == 4
    &&& (forall|i: int| 0 <= i < s.len() ==> is_letter_char(#[trigger] s[i]))
}

/// The bytes of an ASCII text, one byte per character.
pub open spec fn bytes_of_text(s: Seq<char>) -> Seq<u8> {
    Seq::new(s.len(), |i: int| s[i] as u8)
}

/// The text form of a sequence of ASCII bytes, one character per byte.
pub open spec fn text_of_bytes(s: Seq<u8>) -> Seq<char> {
    Seq::new(s.len(), |i: int| s[i] as char)
}

/// The semantic role each byte position of a type code carries in bit
/// index 5 of its byte.
#[derive(Debug, Clone, Copy, PartialEq, Eq, Structural)]
pub enum Type {
    Ancillary,
    Private,
    Reserved,
    SafeToCopy,
}

/// The bit value at which a role reads as its usual well-formed setting.
pub open spec fn spec_valid_bit(t: Type) -> u8 {
    match t {
        Type::Ancillary => 0,
        Type::Private => 1,
        Type::Reserved => 0,
        Type::SafeToCopy => 1,
    }
}

/// The byte position of a type code that carries a role.
pub open spec fn spec_position(t: Type) -> u8 {
    match t {
        Type::Ancillary => 0,
        Type::Private => 1,
        Type::Reserved => 2,
        Type::SafeToCopy => 3,
    }
}

impl Type {
    /// The bit value at which this role reads as its usual well-formed
    /// setting.
    pub fn valid_bit(&self) -> (r: u8)
        ensures
            r == spec_valid_bit(*self),
    {
        match self {
            Type::Ancillary => 0,
            Type::Private => 1,
            Type::Reserved => 0,
            Type::SafeToCopy => 1,
        }
    }

    /// The byte position (0 to 3) that carries this role.
    pub fn position(&self) -> (r: u8)
        ensures
            r == spec_position(*self),
    {
        match self {
            Type::Ancillary => 0,
            Type::Private => 1,
            Type::Reserved => 2,
            Type::SafeToCopy => 3,
        }
    }
}

/// Relies on String::from_utf8: bytes below 128 are valid UTF-8 and decode
/// to one character per byte, each character's code point the byte's value.
#[verifier::external_body]
fn ascii_to_text(v: Vec<u8>) -> (r: String)
    requires
        forall|i: int| 0 <= i < v@.len() ==> #[trigger] v@[i] < 128,
    ensures
        r@ == text_of_bytes(v@),
{
    String::from_utf8(v).unwrap()
}

/// The error kinds of this library.
#[derive(Debug, Clone, Copy, PartialEq, Eq, Structural)]
pub enum ChunkTypeError {
    /// Text handed to the text constructor was not exactly 4 ASCII letters.
    InvalidTypeCode,
    /// Stored bytes could not be rendered as text. Unreachable while the
    /// code is held as raw bytes, but part of the error contract a future
    /// stream reader matches on.
    EncodingError,
}

/// A four-byte chunk type code, immutable once constructed. Two codes are
/// equal iff all 4 bytes match positionally.
#[derive(Debug, Clone, Copy, PartialEq, Eq, Structural)]
pub struct ChunkType {
    b0: u8,
    b1: u8,
    b2: u8,
    b3: u8,
}

impl View for ChunkType {
    type V = Seq<u8>;

    closed spec fn view(&self) -> Seq<u8> {
        seq![self.b0, self.b1, self.b2, self.b3]
    }
}

impl ChunkType {
    /// Constructs a type code from 4 raw bytes. Any byte values are
    /// representable, so that a stream reader can hold a malformed tag for
    /// later explicit rejection; this constructor never fails.
    pub fn try_from(value: [u8; 4]) -> (r: Result<ChunkType, ChunkTypeError>)
        ensures
            r is Ok,
            r matches Ok(c) ==> c@ == value@,
    {
        let c = ChunkType { b0: value[0], b1: value[1], b2: value[2], b3: value[3] };
        proof {
            assert(c@ =~= value@);
        }
        Ok(c)
    }

    /// Returns the stored raw bytes, unchanged.
    pub fn bytes(&self) -> (r: [u8; 4])
        ensures
            r@ == self@,
    {
        let r: [u8; 4] = [self.b0, self.b1, self.b2, self.b3];
        proof {
            assert(r@ =~= self@);
        }
        r
    }

    /// Constructs a type code from text. The text is accepted exactly when
    /// it is 4 characters long and every character is an ASCII letter;
    /// digits, punctuation, multi-byte characters and any other length are
    /// rejected eagerly.
    pub fn from_str(s: &str) -> (r: Result<ChunkType, ChunkTypeError>)
        ensures
            r is Ok <==> spec_is_valid_text(s@),
            r matches Ok(c) ==> c@ == bytes_of_text(s@),
            r matches Err(e) ==> e == ChunkTypeError::InvalidTypeCode,
    {
        if !s.is_ascii() {
            proof {
                if spec_is_valid_text(s@) {
                    assert forall|i: int| 0 <= i < s@.len() implies '\0' <= #[trigger] s@[i]
                        <= '\u{7f}' by {
                        assert(is_letter_char(s@[i]));
                    }
                    assert(vstd::string::is_ascii(s));
                }
            }
            return Err(ChunkTypeError::InvalidTypeCode);
        }
        if s.unicode_len() != 4 {
            return Err(ChunkTypeError::InvalidTypeCode);
        }
        let b0 = s.get_ascii(0);
        let b1 = s.get_ascii(1);
        let b2 = s.get_ascii(2);
        let b3 = s.get_ascii(3);
        if Self::is_valid_byte(b0) && Self::is_valid_byte(b1) && Self::is_valid_byte(b2)
            && Self::is_valid_byte(b3) {
            let c = ChunkType { b0, b1, b2, b3 };
            proof {
                assert(c@ =~= bytes_of_text(s@));
            }
            Ok(c)
        } else {
            Err(ChunkTypeError::InvalidTypeCode)
        }
    }

    /// Renders the stored bytes as a 4-character text value; the textual
    /// form used for diagnostics and round-tripping through human-readable
    /// identifiers. Defined only when every byte is valid single-byte text,
    /// which holds of every code the text constructor produces.
    pub fn to_text(&self) -> (r: String)
        requires
            forall|i: int| 0 <= i < self@.len() ==> #[trigger] self@[i] < 128,
        ensures
            r@ == text_of_bytes(self@),
    {
        let mut v: Vec<u8> = Vec::new();
        v.push(self.b0);
        v.push(self.b1);
        v.push(self.b2);
        v.push(self.b3);
        proof {
            assert(v@ =~= self@);
        }
        ascii_to_text(v)
    }

    /// Valid bytes are represented by the characters A-Z or a-z.
    pub fn is_valid_byte(byte: u8) -> (r: bool)
        ensures
            r == is_ascii_letter(byte),
    {
        (65 <= byte && byte <= 90) || (97 <= byte && byte <= 122)
    }

    /// True iff bit index 5 of byte position 3 is set (fourth letter
    /// lowercase): an editor that does not recognize this chunk type may
    /// still copy the chunk verbatim.
    pub fn is_safe_to_copy(&self) -> (r: bool)
        ensures
            r == bit_five_set(self@[3]),
    {
        self.b3 & 32 != 0
    }

    /// True iff bit index 5 of byte position 0 is clear (first letter
    /// uppercase): a reader must understand this chunk type to process the
    /// container.
    pub fn is_critical(&self) -> (r: bool)
        ensures
            r == !bit_five_set(self@[0]),
    {
        self.b0 & 32 == 0
    }

    /// True iff bit index 5 of byte position 1 is clear (second letter
    /// uppercase): the chunk type belongs to the public, standard set.
    pub fn is_public(&self) -> (r: bool)
        ensures
            r == !bit_five_set(self@[1]),
    {
        self.b1 & 32 == 0
    }

    /// True iff bit index 5 of byte position 2, the reserved position, is
    /// clear (third letter uppercase), as the format requires of every
    /// well-formed type code.
    pub fn is_reserved_bit_valid(&self) -> (r: bool)
        ensures
            r == !bit_five_set(self@[2]),
    {
        self.b2 & 32 == 0
    }

    /// The composite well-formedness check: all 4 bytes are ASCII letters
    /// and the reserved bit is clear. Only then may the flag semantics be
    /// trusted.
    pub fn is_valid(&self) -> (r: bool)
        ensures
            r == spec_is_valid(self@),
    {
        let letters = Self::is_valid_byte(self.b0) && Self::is_valid_byte(self.b1)
            && Self::is_valid_byte(self.b2) && Self::is_valid_byte(self.b3);
        if !letters {
            return false;
        }
        self.is_reserved_bit_valid()
    }
}

/// Round trip: rendering the bytes taken from a 4-letter text yields that
/// text again, so a code built by the text constructor converts back to the
/// text it was built from.
pub proof fn lemma_text_round_trip(s: Seq<char>)
    requires
        spec_is_valid_text(s),
    ensures
        text_of_bytes(bytes_of_text(s)) =~= s,
{
    assert forall|i: int| 0 <= i < s.len() implies text_of_bytes(bytes_of_text(s))[i]
        == s[i] by {
        assert(is_letter_char(s[i]));
    }
}

/// The bytes taken from an accepted text are all ASCII letters, hence valid
/// single-byte text; this is what lets the textual form be taken of every
/// code the text constructor produces.
pub proof fn lemma_text_bytes_are_letters(s: Seq<char>)
    requires
        spec_is_valid_text(s),
    ensures
        bytes_of_text(s).len() == 4,
        forall|i: int|
            0 <= i < bytes_of_text(s).len() ==> is_ascii_letter(#[trigger] bytes_of_text(s)[i]),
        forall|i: int| 0 <= i < bytes_of_text(s).len() ==> #[trigger] bytes_of_text(s)[i] < 128,
{
    assert forall|i: int| 0 <= i < bytes_of_text(s).len() implies is_ascii_letter(
        #[trigger] bytes_of_text(s)[i],
    ) && bytes_of_text(s)[i] < 128 by {
        assert(is_letter_char(s[i]));
    }
}

/// Reserved-bit equivalence: for a code whose 4 bytes are all ASCII
/// letters, the composite well-formedness check holds iff the byte at
/// position 2 is an uppercase letter, iff bit index 5 of that byte is 0.
pub proof fn lemma_reserved_bit_equivalence(s: Seq<u8>)
    requires
        s.len() == 4,
        forall|i: int| 0 <= i < s.len() ==> is_ascii_letter(#[trigger] s[i]),
    ensures
        spec_is_valid(s) <==> is_uppercase_letter(s[2]),
        spec_is_valid(s) <==> !bit_five_set(s[2]),
{
    let b = s[2];
    assert(is_ascii_letter(b));
    assert((65 <= b && b <= 90) <==> b & 32 == 0) by (bit_vector)
        requires
            (65 <= b && b <= 90) || (97 <= b && b <= 122),
    ;
}

/// Determinism: every accessor's result is a function of the stored bytes
/// alone, so repeated calls on equal codes return identical results. Each
/// accessor's contract pins its result to one of the spec functions named
/// here.
pub proof fn lemma_accessors_deterministic(a: ChunkType, b: ChunkType)
    requires
        a == b,
    ensures
        a@ == b@,
        spec_is_valid(a@) == spec_is_valid(b@),
        bit_five_set(a@[0]) == bit_five_set(b@[0]),
        bit_five_set(a@[1]) == bit_five_set(b@[1]),
        bit_five_set(a@[2]) == bit_five_set(b@[2]),
        bit_five_set(a@[3]) == bit_five_set(b@[3]),
        text_of_bytes(a@) == text_of_bytes(b@),
{
}

/// Equality: two type codes are equal exactly when their byte views match
/// positionally.
pub proof fn lemma_eq_is_byte_eq(a: ChunkType, b: ChunkType)
    ensures
        (a == b) <==> a@ =~= b@,
{
    if a@ =~= b@ {
        assert(a@[0] == b@[0] && a@[1] == b@[1] && a@[2] == b@[2] && a@[3] == b@[3]);
    }
}

} // verus!
