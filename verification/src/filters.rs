//! Prefixes that select gateways by the leading bits of their identifier.

use vstd::prelude::*;
use vstd::string::StringSliceAdditionalSpecFns;
use vstd::utf8::encode_utf8;
use vstd::utf8::is_ascii_chars_encode_utf8;

use crate::error::Error;
use crate::packets::be_word;
use crate::packets::lemma_be_word_bounds;
use crate::packets::lemma_be_word_injective;
use crate::packets::hex_encode;
use crate::packets::hex_lower;
use crate::packets::hex_digit;
use crate::text::decimal;
use crate::text::digit_char;
use crate::text::push_decimal;

verus! {

/// The largest number of leading bits that a prefix can fix.
pub const MAX_PREFIX_SIZE: u32 = 64;

/// The leading `bits` bits of a 64-bit word, moved down to its low end.
pub open spec fn top_bits(word: u64, bits: u32) -> u64
    recommends
        1 <= bits <= 64,
{
    word >> ((64 - bits) as u64)
}

/// Whether an identifier, given least significant byte first, starts with
/// the leading `size` bits of `prefix`. A prefix of no bits is one that every
/// identifier starts with.
pub open spec fn prefix_matches(prefix: Seq<u8>, size: u32, eui_le: Seq<u8>) -> bool
    recommends
        prefix.len() == 8,
        eui_le.len() == 8,
        size <= 64,
{
    size == 0 || top_bits(be_word(eui_le.reverse()) as u64, size) == top_bits(
        be_word(prefix) as u64,
        size,
    )
}

/// A prefix that fixes all 64 bits matches the identifier that holds its
/// bytes, and no other.
pub proof fn lemma_full_prefix_matches_one(prefix: Seq<u8>, eui_le: Seq<u8>)
    requires
        prefix.len() == 8,
        eui_le.len() == 8,
    ensures
        prefix_matches(prefix, 64, eui_le) <==> eui_le.reverse() == prefix,
{
    let id = eui_le.reverse();
    lemma_be_word_bounds(id);
    lemma_be_word_bounds(prefix);
    let a = be_word(id) as u64;
    let b = be_word(prefix) as u64;
    assert(a >> 0u64 == a) by (bit_vector);
    assert(b >> 0u64 == b) by (bit_vector);
    if a == b {
        lemma_be_word_injective(id, prefix);
    }
}

/// The value of a hexadecimal digit, in either case, given as a byte of text.
pub open spec fn hex_value(byte: u8) -> Option<u8> {
    if 0x30 <= byte <= 0x39 {
        Some((byte - 0x30) as u8)
    } else if 0x61 <= byte <= 0x66 {
        Some((byte - 0x61 + 10) as u8)
    } else if 0x41 <= byte <= 0x46 {
        Some((byte - 0x41 + 10) as u8)
    } else {
        None
    }
}

/// Whether a byte of text is a decimal digit.
pub open spec fn is_digit(byte: u8) -> bool {
    0x30 <= byte <= 0x39
}

/// The number that a text of decimal digits spells.
pub open spec fn decimal_value(digits: Seq<u8>) -> nat
    decreases digits.len(),
{
    if digits.len() == 0 {
        0
    } else {
        decimal_value(digits.drop_last()) * 10 + (digits.last() - 0x30) as nat
    }
}

/// The eight bytes that sixteen hexadecimal digits spell, if the text is
/// sixteen hexadecimal digits.
pub open spec fn parse_hex(text: Seq<u8>) -> Option<Seq<u8>> {
    if text.len() == 16 && forall|i: int| 0 <= i < 16 ==> hex_value(#[trigger] text[i]) is Some {
        Some(
            Seq::new(
                8,
                |i: int| (hex_value(text[2 * i])->0 * 16 + hex_value(text[2 * i + 1])->0) as u8,
            ),
        )
    } else {
        None
    }
}

/// Whether a text holds decimal digits only.
pub open spec fn all_digits(text: Seq<u8>) -> bool {
    forall|i: int| 0 <= i < text.len() ==> is_digit(#[trigger] text[i])
}

/// A text without the plus sign that it may start with.
pub open spec fn unsigned(text: Seq<u8>) -> Seq<u8> {
    if text.len() > 0 && text[0] == 0x2b {
        text.skip(1)
    } else {
        text
    }
}

/// The number that a text spells, if the text is a number of 32 bits
/// written in decimal: one digit or more, after a plus sign or without one.
pub open spec fn parse_number(text: Seq<u8>) -> Option<nat> {
    let digits = unsigned(text);
    if digits.len() > 0 && all_digits(digits) && decimal_value(digits) <= u32::MAX {
        Some(decimal_value(digits))
    } else {
        None
    }
}

/// What a text stands for as a prefix. The text is sixteen hexadecimal
/// digits, a slash and a decimal number of at most 64.
pub open spec fn parse_prefix(text: Seq<u8>) -> Result<EuiPrefixView, Error> {
    if text.len() < 17 || text[16] != 0x2f {
        Err(Error::PrefixFormat)
    } else {
        match (parse_hex(text.take(16)), parse_number(text.skip(17))) {
            (Some(prefix), Some(size)) => if size > MAX_PREFIX_SIZE {
                Err(Error::PrefixSize)
            } else {
                Ok(EuiPrefixView { prefix, size: size as u32 })
            },
            _ => Err(Error::PrefixFormat),
        }
    }
}

/// The text of a prefix: its bytes in lower-case hexadecimal digits, a slash
/// and its size in decimal.
pub open spec fn prefix_text(prefix: EuiPrefixView) -> Seq<char> {
    hex_lower(prefix.prefix) + seq!['/'] + decimal(prefix.size as nat)
}

/// The bytes of a text of the first 128 characters: one byte for each
/// character.
pub open spec fn ascii_bytes(text: Seq<char>) -> Seq<u8> {
    Seq::new(text.len(), |i: int| text[i] as u8)
}

/// A number written in decimal holds digits only, and spells that number.
pub proof fn lemma_decimal_is_read_back(n: nat)
    ensures
        decimal(n).len() > 0,
        forall|i: int| 0 <= i < decimal(n).len() ==> '0' <= #[trigger] decimal(n)[i] <= '9',
        all_digits(ascii_bytes(decimal(n))),
        decimal_value(ascii_bytes(decimal(n))) == n,
    decreases n,
{
    let text = decimal(n);
    let bytes = ascii_bytes(text);
    if n < 10 {
        assert(bytes.drop_last() =~= Seq::<u8>::empty());
        assert(decimal_value(bytes.drop_last()) == 0);
        assert(bytes.last() == digit_char(n as int) as u8);
    } else {
        lemma_decimal_is_read_back(n / 10);
        let head = decimal(n / 10);
        assert(bytes.drop_last() =~= ascii_bytes(head));
        assert(bytes.last() == digit_char((n % 10) as int) as u8);
        assert forall|i: int| 0 <= i < bytes.len() implies is_digit(#[trigger] bytes[i]) by {
            if i < head.len() {
                assert(bytes[i] == ascii_bytes(head)[i]);
            }
        }
        assert forall|i: int| 0 <= i < text.len() implies '0' <= #[trigger] text[i] <= '9' by {
            if i < head.len() {
                assert(text[i] == head[i]);
            }
        }
    }
}

/// The text of a prefix, as `to_string` writes it, is read back by
/// `from_str` as that prefix.
pub proof fn lemma_prefix_text_is_read_back(prefix: EuiPrefixView)
    requires
        prefix.prefix.len() == 8,
        prefix.size <= MAX_PREFIX_SIZE,
    ensures
        parse_prefix(encode_utf8(prefix_text(prefix))) matches Ok(read) && read.prefix
            == prefix.prefix && read.size == prefix.size,
{
    let text = prefix_text(prefix);
    let bytes = ascii_bytes(text);
    lemma_decimal_is_read_back(prefix.size as nat);
    assert forall|i: int| 0 <= i < text.len() implies '\0' <= #[trigger] text[i] <= '\u{7f}' by {
        if i < 16 {
            let nibble = hex_nibble(prefix.prefix, i);
            assert(0 <= nibble < 16);
            assert(text[i] == hex_digit(nibble));
        } else if i > 16 {
            assert(text[i] == decimal(prefix.size as nat)[i - 17]);
        }
    }
    is_ascii_chars_encode_utf8(text);
    assert(encode_utf8(text) =~= bytes);
    let hex = hex_lower(prefix.prefix);
    let number = decimal(prefix.size as nat);
    assert(bytes[16] == 0x2f);
    assert(bytes.take(16) =~= ascii_bytes(hex));
    assert(bytes.skip(17) =~= ascii_bytes(number));
    assert forall|i: int| 0 <= i < 16 implies hex_value(#[trigger] bytes.take(16)[i]) is Some by {
        lemma_hex_digit_is_read_back(hex_nibble(prefix.prefix, i));
    }
    assert forall|i: int| 0 <= i < 8 implies (#[trigger] parse_hex(bytes.take(16))->0[i])
        == prefix.prefix[i] by {
        lemma_hex_digit_is_read_back(hex_nibble(prefix.prefix, 2 * i));
        lemma_hex_digit_is_read_back(hex_nibble(prefix.prefix, 2 * i + 1));
    }
    assert(parse_hex(bytes.take(16))->0 =~= prefix.prefix);
    assert(is_digit(ascii_bytes(number)[0]));
}

/// The value below 16 that a position of a hexadecimal text stands for.
pub open spec fn hex_nibble(bytes: Seq<u8>, i: int) -> int {
    if i % 2 == 0 {
        bytes[i / 2] as int / 16
    } else {
        bytes[i / 2] as int % 16
    }
}

/// A lower-case hexadecimal digit is read back as its value.
pub proof fn lemma_hex_digit_is_read_back(nibble: int)
    requires
        0 <= nibble < 16,
    ensures
        hex_value(hex_digit(nibble) as u8) == Some(nibble as u8),
{
}

/// A text of digits spells at least what any of its beginnings spells.
pub proof fn lemma_decimal_value_grows(digits: Seq<u8>, k: int)
    requires
        0 <= k <= digits.len(),
    ensures
        decimal_value(digits.take(k)) <= decimal_value(digits),
    decreases digits.len() - k,
{
    if k == digits.len() {
        assert(digits.take(k) =~= digits);
    } else {
        lemma_decimal_value_grows(digits.drop_last(), k);
        assert(digits.drop_last().take(k) =~= digits.take(k));
    }
}

/// Reads one hexadecimal digit, in either case.
fn hex_digit_value(byte: u8) -> (value: Option<u8>)
    ensures
        value == hex_value(byte),
        value matches Some(v) ==> v < 16,
{
    if 0x30 <= byte && byte <= 0x39 {
        Some(byte - 0x30)
    } else if 0x61 <= byte && byte <= 0x66 {
        Some(byte - 0x61 + 10)
    } else if 0x41 <= byte && byte <= 0x46 {
        Some(byte - 0x41 + 10)
    } else {
        None
    }
}

/// Reads sixteen hexadecimal digits from the start of a text.
fn read_hex(text: &[u8]) -> (bytes: Option<[u8; 8]>)
    requires
        text@.len() >= 16,
    ensures
        match parse_hex(text@.take(16)) {
            Some(spelled) => bytes matches Some(read) && read@ == spelled,
            None => bytes is None,
        },
{
    let ghost digits = text@.take(16);
    let mut bytes: [u8; 8] = [0, 0, 0, 0, 0, 0, 0, 0];
    let mut i: usize = 0;
    while i < 8
        invariant
            i <= 8,
            text@.len() >= 16,
            digits == text@.take(16),
            forall|j: int| 0 <= j < 2 * i ==> hex_value(#[trigger] digits[j]) is Some,
            forall|j: int|
                0 <= j < i ==> (#[trigger] bytes@[j]) == (hex_value(digits[2 * j])->0 * 16
                    + hex_value(digits[2 * j + 1])->0) as u8,
        decreases 8 - i,
    {
        let high = hex_digit_value(text[2 * i]);
        let low = hex_digit_value(text[2 * i + 1]);
        match (high, low) {
            (Some(high), Some(low)) => {
                bytes[i] = high * 16 + low;
            },
            _ => {
                proof {
                    assert(digits[2 * i] == text@[2 * i]);
                    assert(digits[2 * i + 1] == text@[2 * i + 1]);
                }
                return None;
            },
        }
        proof {
            assert(digits[2 * i] == text@[2 * i]);
            assert(digits[2 * i + 1] == text@[2 * i + 1]);
        }
        i = i + 1;
    }
    proof {
        assert(bytes@ =~= parse_hex(digits)->0);
    }
    Some(bytes)
}

/// Reads a number of 32 bits written in decimal from the end of a text,
/// starting at `from`.
fn read_number(text: &[u8], from: usize) -> (number: Option<u32>)
    requires
        from <= text@.len(),
    ensures
        match parse_number(text@.skip(from as int)) {
            Some(spelled) => number matches Some(read) && read == spelled,
            None => number is None,
        },
{
    let ghost tail = text@.skip(from as int);
    let mut start: usize = from;
    if start < text.len() && text[start] == 0x2b {
        start = start + 1;
    }
    let ghost digits = text@.skip(start as int);
    proof {
        if start == from {
            assert(digits == tail);
        } else {
            assert(tail[0] == 0x2b);
            assert(digits =~= tail.skip(1));
        }
    }
    if start >= text.len() {
        return None;
    }
    let mut value: u64 = 0;
    let mut i: usize = start;
    while i < text.len()
        invariant
            start <= i <= text@.len(),
            start < text@.len(),
            tail == text@.skip(from as int),
            digits == text@.skip(start as int),
            digits == unsigned(tail),
            forall|j: int| 0 <= j < i - start ==> is_digit(#[trigger] digits[j]),
            value == decimal_value(digits.take(i - start)),
            value <= u32::MAX,
        decreases text@.len() - i,
    {
        let byte: u8 = text[i];
        proof {
            assert(digits[i - start] == byte);
            assert(digits.take(i - start + 1).drop_last() =~= digits.take(i - start));
        }
        if !(0x30 <= byte && byte <= 0x39) {
            assert(!is_digit(digits[i - start]));
            return None;
        }
        value = value * 10 + (byte - 0x30) as u64;
        if value > u32::MAX as u64 {
            proof {
                lemma_decimal_value_grows(digits, i - start + 1);
            }
            return None;
        }
        i = i + 1;
    }
    proof {
        assert(digits.take(i - start) =~= digits);
    }
    Some(value as u32)
}

/// What an `EuiPrefix` stands for: eight bytes, most significant first, and
/// the number of their leading bits that count.
pub struct EuiPrefixView {
    pub prefix: Seq<u8>,
    pub size: u32,
}

/// A filter on identifiers: the leading bits that an identifier must have.
#[derive(Clone, Copy, Debug, PartialEq, Eq)]
pub struct EuiPrefix {
    prefix: [u8; 8],
    size: u32,
}

impl View for EuiPrefix {
    type V = EuiPrefixView;

    closed spec fn view(&self) -> EuiPrefixView {
        EuiPrefixView { prefix: self.prefix@, size: self.size }
    }
}

/// `lrwn_filters::EuiPrefix::is_match` on the prefix that
/// `lrwn_filters::EuiPrefix::new` makes of `prefix` and `size`. The contract
/// claims what its source computes: the identifier is read as a 64-bit word
/// with its first byte as the least significant one, the prefix with its
/// first byte as the most significant one, both are shifted right by 64 less
/// `size` bits, and the results are compared. A size of 0 or above 64 is left
/// out, because that shift is then not defined.
#[verifier::external_body]
fn outside_is_match(prefix: [u8; 8], size: u32, eui_le: [u8; 8]) -> (matched: bool)
    requires
        1 <= size <= 64,
    ensures
        matched == (top_bits(be_word(eui_le@.reverse()) as u64, size) == top_bits(
            be_word(prefix@) as u64,
            size,
        )),
{
    lrwn_filters::EuiPrefix::new(prefix, size).is_match(eui_le)
}

impl EuiPrefix {
    #[verifier::type_invariant]
    spec fn well_formed(self) -> bool {
        self.size <= MAX_PREFIX_SIZE
    }

    /// The prefix of the given bytes and size, unless the size is above 64.
    pub fn new(prefix: [u8; 8], size: u32) -> (made: Option<EuiPrefix>)
        ensures
            size > MAX_PREFIX_SIZE ==> made is None,
            size <= MAX_PREFIX_SIZE ==> made is Some && made->0@ == (EuiPrefixView {
                prefix: prefix@,
                size,
            }),
    {
        if size > MAX_PREFIX_SIZE {
            None
        } else {
            Some(EuiPrefix { prefix, size })
        }
    }

    /// The bytes of the prefix, most significant first.
    pub fn prefix(&self) -> (prefix: [u8; 8])
        ensures
            prefix@ == self@.prefix,
    {
        self.prefix
    }

    /// The number of leading bits that the prefix fixes.
    pub fn size(&self) -> (size: u32)
        ensures
            size == self@.size,
            size <= MAX_PREFIX_SIZE,
    {
        proof {
            use_type_invariant(self);
        }
        self.size
    }

    /// Tells whether an identifier, given least significant byte first,
    /// starts with this prefix.
    pub fn is_match(&self, eui_le: [u8; 8]) -> (matched: bool)
        ensures
            matched == prefix_matches(self@.prefix, self@.size, eui_le@),
    {
        proof {
            use_type_invariant(self);
        }
        if self.size == 0 {
            true
        } else {
            outside_is_match(self.prefix, self.size, eui_le)
        }
    }

    /// Reads a prefix from the bytes of its text.
    pub fn parse(text: &[u8]) -> (parsed: Result<EuiPrefix, Error>)
        ensures
            match parse_prefix(text@) {
                Ok(prefix) => parsed matches Ok(read) && read@ == prefix,
                Err(e) => parsed matches Err(err) && err == e,
            },
    {
        if text.len() < 17 || text[16] != 0x2f {
            return Err(Error::PrefixFormat);
        }
        let prefix = match read_hex(text) {
            Some(prefix) => prefix,
            None => {
                return Err(Error::PrefixFormat);
            },
        };
        let size = match read_number(text, 17) {
            Some(size) => size,
            None => {
                return Err(Error::PrefixFormat);
            },
        };
        if size > MAX_PREFIX_SIZE {
            return Err(Error::PrefixSize);
        }
        Ok(EuiPrefix { prefix, size })
    }

    /// Reads a prefix from its text.
    pub fn from_str(s: &str) -> (parsed: Result<EuiPrefix, Error>)
        ensures
            match parse_prefix(s.spec_bytes()) {
                Ok(prefix) => parsed matches Ok(read) && read@ == prefix,
                Err(e) => parsed matches Err(err) && err == e,
            },
    {
        EuiPrefix::parse(s.as_bytes())
    }

    /// Writes the prefix as text.
    pub fn to_string(&self) -> (text: String)
        ensures
            text@ == prefix_text(self@),
    {
        proof {
            reveal_strlit("/");
        }
        let mut text = hex_encode(&self.prefix);
        text.append("/");
        push_decimal(&mut text, self.size as u64);
        assert(text@ =~= prefix_text(self@));
        text
    }
}

} // verus!
