//! Four-character codes, as used for pixel formats, codecs and other media
//! types.
//!
//! A [`FourCharCode`] is a `u32` whose big-endian bytes are usually four ASCII
//! characters. The contracts speak of the number through
//! [`FourCharCode::value`], of its bytes through [`be_bytes`], and of the text
//! through the UTF-8 functions of `vstd`.
use vstd::arithmetic::div_mod::*;
use vstd::prelude::*;
use vstd::utf8::*;

verus! {

/// The number whose big-endian bytes are the four given ones.
pub open spec fn be_value(bytes: Seq<u8>) -> int
    recommends
        bytes.len() == 4,
{
    bytes[0] * 0x100_0000 + bytes[1] * 0x1_0000 + bytes[2] * 0x100 + bytes[3]
}

/// The four big-endian bytes of a number.
pub open spec fn be_bytes(value: u32) -> Seq<u8> {
    seq![
        (value / 0x100_0000) as u8,
        (value / 0x1_0000 % 0x100) as u8,
        (value / 0x100 % 0x100) as u8,
        (value % 0x100) as u8,
    ]
}

/// Whether the bytes are ASCII but for single bytes between them that occur in
/// no UTF-8 text.
pub open spec fn singly_invalid(bytes: Seq<u8>) -> bool {
    forall|i: int|
        #![trigger bytes[i]]
        0 <= i < bytes.len() && bytes[i] >= 0x80 ==> bytes[i] >= 0xF5 && (i + 1 < bytes.len()
            ==> bytes[i + 1] < 0x80)
}

/// The text of such bytes, with the replacement character for each byte that is
/// not ASCII.
pub open spec fn with_replacements(bytes: Seq<u8>) -> Seq<char> {
    Seq::new(
        bytes.len(),
        |i: int|
            if bytes[i] < 0x80 {
                bytes[i] as char
            } else {
                '\u{FFFD}'
            },
    )
}

/// What `String::from_utf8_lossy` makes of the given bytes.
pub uninterp spec fn utf8_lossy(bytes: Seq<u8>) -> Seq<char>;

/// Calls `String::from_utf8_lossy` and copies what it returns into a `String`.
///
/// The result is a function of the bytes, named [`utf8_lossy`]. Bytes that are
/// valid UTF-8 come out as the text that they encode, and a byte between ASCII
/// ones that occurs in no UTF-8 text as a replacement character. How longer parts
/// that are not valid UTF-8 are grouped into replacement characters is left
/// unsaid.
#[verifier::external_body]
fn decode_lossy(bytes: &[u8]) -> (text: String)
    ensures
        text@ == utf8_lossy(bytes@),
        valid_utf8(bytes@) ==> text@ == decode_utf8(bytes@),
        singly_invalid(bytes@) ==> text@ == with_replacements(bytes@),
{
    String::from_utf8_lossy(bytes).into_owned()
}

/// The message for a text that does not take up exactly four bytes.
pub const WRONG_LENGTH: &'static str = "FourCharCode must be exactly 4 characters";

/// The message for a text of four bytes that are not all ASCII.
pub const NOT_ASCII: &'static str = "FourCharCode must contain only ASCII characters";

/// A code of four bytes, held as the number that they make in big-endian order.
#[derive(Debug, Clone, Copy, PartialEq, Eq, Hash, Structural)]
pub struct FourCharCode(u32);

/// What parsing a text gives: the code, or the message that says why not.
pub open spec fn parsed(text: Seq<char>) -> Result<int, Seq<char>> {
    if encode_utf8(text).len() != 4 {
        Err(WRONG_LENGTH@)
    } else if !is_ascii_chars(text) {
        Err(NOT_ASCII@)
    } else {
        Ok(be_value(encode_utf8(text)))
    }
}

impl FourCharCode {
    /// The number that the code stands for.
    pub closed spec fn value(self) -> u32 {
        self.0
    }

    /// Makes a code of four bytes.
    pub fn from_bytes(bytes: [u8; 4]) -> (code: Self)
        ensures
            code.value() == be_value(bytes@),
    {
        FourCharCode(
            bytes[0] as u32 * 0x100_0000 + bytes[1] as u32 * 0x1_0000 + bytes[2] as u32 * 0x100
                + bytes[3] as u32,
        )
    }

    /// Makes a code of a slice, which must hold exactly four bytes.
    pub fn from_slice(bytes: &[u8]) -> (code: Option<Self>)
        ensures
            bytes@.len() != 4 ==> code is None,
            bytes@.len() == 4 ==> (code matches Some(c) && c.value() == be_value(bytes@)),
    {
        if bytes.len() != 4 {
            return None;
        }
        Some(FourCharCode::from_bytes([bytes[0], bytes[1], bytes[2], bytes[3]]))
    }

    /// The code as a number.
    pub fn as_u32(self) -> (value: u32)
        ensures
            value == self.value(),
    {
        self.0
    }

    /// The four bytes of the code.
    pub fn as_bytes(self) -> (bytes: [u8; 4])
        ensures
            bytes@ == be_bytes(self.value()),
    {
        let bytes: [u8; 4] = [
            (self.0 / 0x100_0000) as u8,
            (self.0 / 0x1_0000 % 0x100) as u8,
            (self.0 / 0x100 % 0x100) as u8,
            (self.0 % 0x100) as u8,
        ];
        assert(bytes@ =~= be_bytes(self.value()));
        bytes
    }

    /// Makes a code of a number.
    pub fn from_u32(value: u32) -> (code: Self)
        ensures
            code.value() == value,
    {
        FourCharCode(value)
    }

    /// Tells whether two codes are the same.
    pub fn equals(self, other: Self) -> (same: bool)
        ensures
            same == (self == other),
            same == (self.value() == other.value()),
    {
        self.0 == other.0
    }

    /// The code as text: its bytes, decoded as UTF-8 where they are that.
    pub fn display(self) -> (text: String)
        ensures
            text@ == utf8_lossy(be_bytes(self.value())),
            valid_utf8(be_bytes(self.value())) ==> text@ == decode_utf8(be_bytes(self.value())),
            singly_invalid(be_bytes(self.value())) ==> text@ == with_replacements(
                be_bytes(self.value()),
            ),
    {
        let bytes = self.as_bytes();
        decode_lossy(bytes.as_slice())
    }

    /// Parses a text of four ASCII characters.
    pub fn from_str(s: &str) -> (code: Result<Self, &'static str>)
        ensures
            match parsed(s@) {
                Ok(value) => code matches Ok(c) && c.value() == value,
                Err(message) => code matches Err(e) && e@ == message,
            },
    {
        let bytes = s.as_bytes();
        if bytes.len() != 4 {
            return Err(WRONG_LENGTH);
        }
        if !s.is_ascii() {
            return Err(NOT_ASCII);
        }
        Ok(FourCharCode::from_bytes([bytes[0], bytes[1], bytes[2], bytes[3]]))
    }
}

impl std::str::FromStr for FourCharCode {
    type Err = &'static str;

    fn from_str(s: &str) -> (code: Result<Self, &'static str>)
        ensures
            match parsed(s@) {
                Ok(value) => code matches Ok(c) && c.value() == value,
                Err(message) => code matches Err(e) && e@ == message,
            },
    {
        FourCharCode::from_str(s)
    }
}

impl From<u32> for FourCharCode {
    fn from(value: u32) -> (code: Self)
        ensures
            code.value() == value,
    {
        FourCharCode(value)
    }
}

impl vstd::std_specs::convert::FromSpecImpl<u32> for FourCharCode {
    open spec fn obeys_from_spec() -> bool {
        true
    }

    closed spec fn from_spec(value: u32) -> Self {
        FourCharCode(value)
    }
}

impl From<FourCharCode> for u32 {
    fn from(code: FourCharCode) -> (value: Self) {
        code.0
    }
}

impl vstd::std_specs::convert::FromSpecImpl<FourCharCode> for u32 {
    open spec fn obeys_from_spec() -> bool {
        true
    }

    open spec fn from_spec(code: FourCharCode) -> Self {
        code.value()
    }
}

/// Taking the bytes of a number and putting them together again gives the
/// number.
pub proof fn law_bytes_of_value_round_trip(value: u32)
    ensures
        be_bytes(value).len() == 4,
        be_value(be_bytes(value)) == value,
{
    let v = value as int;
    lemma_div_denominator(v, 0x100, 0x100);
    lemma_div_denominator(v, 0x1_0000, 0x100);
    lemma_fundamental_div_mod(v, 0x100);
    lemma_fundamental_div_mod(v / 0x100, 0x100);
    lemma_fundamental_div_mod(v / 0x1_0000, 0x100);
}

/// Putting four bytes together and taking the bytes of the result gives the
/// four bytes.
pub proof fn law_value_of_bytes_round_trip(bytes: Seq<u8>)
    requires
        bytes.len() == 4,
    ensures
        0 <= be_value(bytes) <= u32::MAX,
        be_bytes(be_value(bytes) as u32) == bytes,
{
    let value = be_value(bytes);
    let (a, b, c, d) = (bytes[0] as int, bytes[1] as int, bytes[2] as int, bytes[3] as int);
    lemma_fundamental_div_mod_converse(value, 0x100_0000, a, b * 0x1_0000 + c * 0x100 + d);
    lemma_fundamental_div_mod_converse(value, 0x1_0000, a * 0x100 + b, c * 0x100 + d);
    lemma_fundamental_div_mod_converse(a * 0x100 + b, 0x100, a, b);
    lemma_fundamental_div_mod_converse(value, 0x100, a * 0x1_0000 + b * 0x100 + c, d);
    lemma_fundamental_div_mod_converse(a * 0x1_0000 + b * 0x100 + c, 0x100, a * 0x100 + b, c);
    let again = be_bytes(value as u32);
    assert(again[0] == a && again[1] == b && again[2] == c && again[3] == d);
    assert(again =~= bytes);
}

/// A text that parses is what its code displays as: the code's bytes are valid
/// UTF-8 and decode to that text.
pub proof fn law_parsed_text_is_displayed(text: Seq<char>)
    requires
        parsed(text) is Ok,
    ensures
        0 <= parsed(text)->Ok_0 <= u32::MAX,
        valid_utf8(be_bytes(parsed(text)->Ok_0 as u32)),
        decode_utf8(be_bytes(parsed(text)->Ok_0 as u32)) == text,
{
    law_value_of_bytes_round_trip(encode_utf8(text));
    encode_utf8_valid_utf8(text);
    encode_utf8_decode_utf8(text);
}

/// A code whose bytes are all ASCII displays as a text that parses to the same
/// code.
pub proof fn law_displayed_text_parses(value: u32)
    requires
        forall|i: int| 0 <= i < 4 ==> #[trigger] be_bytes(value)[i] < 0x80,
    ensures
        valid_utf8(be_bytes(value)),
        parsed(decode_utf8(be_bytes(value))) == Ok::<int, Seq<char>>(value as int),
{
    let bytes = be_bytes(value);
    let text = Seq::new(4, |i: int| bytes[i] as char);
    assert forall|i: int| 0 <= i < 4 implies #[trigger] text[i] as u32 == bytes[i] && (text[i] as u8) == bytes[i] by {
        assert(bytes[i] < 0x80);
    }
    is_ascii_chars_encode_utf8(text);
    assert(encode_utf8(text) =~= bytes);
    encode_utf8_valid_utf8(text);
    encode_utf8_decode_utf8(text);
    law_bytes_of_value_round_trip(value);
}

/// The first byte counts most: a code's number is its bytes read as digits, from
/// the first to the last.
pub proof fn law_first_byte_counts_most(bytes: Seq<u8>)
    requires
        bytes.len() == 4,
    ensures
        be_value(bytes) == ((bytes[0] * 256 + bytes[1]) * 256 + bytes[2]) * 256 + bytes[3],
{
}

/// Codes are ordered as their bytes are, from the first to the last.
pub proof fn law_codes_are_ordered_by_their_bytes(a: Seq<u8>, b: Seq<u8>, at: int)
    requires
        a.len() == 4 && b.len() == 4,
        0 <= at < 4,
        forall|i: int| 0 <= i < at ==> a[i] == b[i],
        a[at] < b[at],
    ensures
        be_value(a) < be_value(b),
{
    if at > 0 {
        assert(a[0] == b[0]);
    }
    if at > 1 {
        assert(a[1] == b[1]);
    }
    if at > 2 {
        assert(a[2] == b[2]);
    }
}

/// A text parses exactly where it is four ASCII characters, and then its
/// characters are the bytes of the code. A text whose UTF-8 form is not four
/// bytes long is too long or too short; any other one that does not parse is not
/// ASCII.
pub proof fn law_four_ascii_characters_parse(text: Seq<char>)
    ensures
        parsed(text) is Ok <==> text.len() == 4 && forall|i: int|
            0 <= i < text.len() ==> '\0' <= #[trigger] text[i] <= '\x7f',
        parsed(text) matches Ok(value) ==> value == (((text[0] as int) * 256 + (text[1] as int))
            * 256 + (text[2] as int)) * 256 + (text[3] as int),
        parsed(text) matches Err(message) ==> message == if encode_utf8(text).len() == 4 {
            "FourCharCode must contain only ASCII characters"@
        } else {
            "FourCharCode must be exactly 4 characters"@
        },
{
    if is_ascii_chars(text) {
        is_ascii_chars_encode_utf8(text);
    }
}

/// A byte between ASCII ones that occurs in no UTF-8 text is shown as one
/// replacement character, and the others as what they are.
pub proof fn law_lone_bytes_are_replaced(bytes: Seq<u8>)
    requires
        forall|i: int| 0 <= i < bytes.len() ==> #[trigger] bytes[i] < 0x80 || bytes[i] >= 0xF5,
        forall|i: int, j: int|
            0 <= i < bytes.len() && j == i + 1 && j < bytes.len() ==> #[trigger] bytes[i] < 0x80
                || #[trigger] bytes[j] < 0x80,
    ensures
        singly_invalid(bytes),
        with_replacements(bytes).len() == bytes.len(),
        forall|i: int|
            0 <= i < bytes.len() ==> #[trigger] with_replacements(bytes)[i] == if bytes[i] < 0x80 {
                bytes[i] as char
            } else {
                '\u{FFFD}'
            },
{
    assert forall|i: int|
        #![trigger bytes[i]]
        0 <= i < bytes.len() && bytes[i] >= 0x80 implies bytes[i] >= 0xF5 && (i + 1 < bytes.len()
        ==> bytes[i + 1] < 0x80) by {
        if i + 1 < bytes.len() {
            let j = i + 1;
            assert(bytes[i] < 0x80 || bytes[j] < 0x80);
        }
    }
}

} // verus!
