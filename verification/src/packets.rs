//! The header of a frame: version, token, packet type and gateway
//! identifier.

use vstd::prelude::*;
use vstd::std_specs::convert::FromSpecImpl;
use vstd::std_specs::convert::TryFromSpecImpl;

use crate::error::Error;

verus! {

/// Offset of the packet-type byte in a frame.
pub const TYPE_OFFSET: usize = 3;

/// Length of the header that every frame starts with.
pub const HEADER_LEN: usize = 4;

/// Offset of the first byte of the gateway identifier.
pub const GATEWAY_ID_OFFSET: usize = 4;

/// Length of a header followed by a gateway identifier.
pub const GATEWAY_ID_END: usize = 12;

/// The kind of a frame, as the fourth byte of its header says.
#[derive(Clone, Copy, Debug, PartialEq, Eq, Structural)]
pub enum PacketType {
    PushData,
    PushAck,
    PullData,
    PullResp,
    PullAck,
    TxAck,
}

impl PacketType {
    /// The byte that stands for this packet type on the wire.
    pub open spec fn code(self) -> u8 {
        match self {
            PacketType::PushData => 0x00,
            PacketType::PushAck => 0x01,
            PacketType::PullData => 0x02,
            PacketType::PullResp => 0x03,
            PacketType::PullAck => 0x04,
            PacketType::TxAck => 0x05,
        }
    }

    /// The packet type that a byte of the wire stands for, if any.
    pub open spec fn from_code(code: u8) -> Option<PacketType> {
        if code == 0x00 {
            Some(PacketType::PushData)
        } else if code == 0x01 {
            Some(PacketType::PushAck)
        } else if code == 0x02 {
            Some(PacketType::PullData)
        } else if code == 0x03 {
            Some(PacketType::PullResp)
        } else if code == 0x04 {
            Some(PacketType::PullAck)
        } else if code == 0x05 {
            Some(PacketType::TxAck)
        } else {
            None
        }
    }

    /// The name of the packet type, in upper case.
    pub open spec fn name(self) -> Seq<char> {
        match self {
            PacketType::PushData => "PUSH_DATA"@,
            PacketType::PushAck => "PUSH_ACK"@,
            PacketType::PullData => "PULL_DATA"@,
            PacketType::PullResp => "PULL_RESP"@,
            PacketType::PullAck => "PULL_ACK"@,
            PacketType::TxAck => "TX_ACK"@,
        }
    }

    /// The name of the packet type as a string.
    pub fn to_string(&self) -> (text: String)
        ensures
            text@ == self.name(),
    {
        match self {
            PacketType::PushData => String::from_str("PUSH_DATA"),
            PacketType::PushAck => String::from_str("PUSH_ACK"),
            PacketType::PullData => String::from_str("PULL_DATA"),
            PacketType::PullResp => String::from_str("PULL_RESP"),
            PacketType::PullAck => String::from_str("PULL_ACK"),
            PacketType::TxAck => String::from_str("TX_ACK"),
        }
    }

    /// What decoding the packet type of a frame gives.
    pub open spec fn decode(frame: Seq<u8>) -> Result<PacketType, Error> {
        if frame.len() < HEADER_LEN {
            Err(Error::TooShort { expected: HEADER_LEN })
        } else {
            match PacketType::from_code(frame[TYPE_OFFSET as int]) {
                Some(packet_type) => Ok(packet_type),
                None => Err(Error::UnknownType { value: frame[TYPE_OFFSET as int] }),
            }
        }
    }
}

impl From<PacketType> for u8 {
    fn from(p: PacketType) -> (code: u8) {
        match p {
            PacketType::PushData => 0x00,
            PacketType::PushAck => 0x01,
            PacketType::PullData => 0x02,
            PacketType::PullResp => 0x03,
            PacketType::PullAck => 0x04,
            PacketType::TxAck => 0x05,
        }
    }
}

impl FromSpecImpl<PacketType> for u8 {
    open spec fn obeys_from_spec() -> bool {
        true
    }

    open spec fn from_spec(p: PacketType) -> u8 {
        p.code()
    }
}

impl TryFrom<&[u8]> for PacketType {
    type Error = Error;

    fn try_from(v: &[u8]) -> (decoded: Result<PacketType, Error>) {
        if v.len() < HEADER_LEN {
            return Err(Error::TooShort { expected: HEADER_LEN });
        }
        let code: u8 = v[TYPE_OFFSET];
        if code == 0x00 {
            Ok(PacketType::PushData)
        } else if code == 0x01 {
            Ok(PacketType::PushAck)
        } else if code == 0x02 {
            Ok(PacketType::PullData)
        } else if code == 0x03 {
            Ok(PacketType::PullResp)
        } else if code == 0x04 {
            Ok(PacketType::PullAck)
        } else if code == 0x05 {
            Ok(PacketType::TxAck)
        } else {
            Err(Error::UnknownType { value: code })
        }
    }
}

impl TryFromSpecImpl<&[u8]> for PacketType {
    open spec fn obeys_try_from_spec() -> bool {
        true
    }

    open spec fn try_from_spec(v: &[u8]) -> Result<PacketType, Error> {
        PacketType::decode(v@)
    }
}

/// The protocol version, as the first byte of a frame says.
#[derive(Clone, Copy, Debug, PartialEq, Eq, Structural)]
pub enum ProtocolVersion {
    Version1,
    Version2,
}

impl ProtocolVersion {
    /// What decoding the protocol version of a frame gives.
    pub open spec fn decode(frame: Seq<u8>) -> Result<ProtocolVersion, Error> {
        if frame.len() < 1 {
            Err(Error::TooShort { expected: 1 })
        } else if frame[0] == 0x01 {
            Ok(ProtocolVersion::Version1)
        } else if frame[0] == 0x02 {
            Ok(ProtocolVersion::Version2)
        } else {
            Err(Error::UnknownVersion)
        }
    }
}

impl TryFrom<&[u8]> for ProtocolVersion {
    type Error = Error;

    fn try_from(v: &[u8]) -> (decoded: Result<ProtocolVersion, Error>) {
        if v.len() < 1 {
            return Err(Error::TooShort { expected: 1 });
        }
        let version: u8 = v[0];
        if version == 0x01 {
            Ok(ProtocolVersion::Version1)
        } else if version == 0x02 {
            Ok(ProtocolVersion::Version2)
        } else {
            Err(Error::UnknownVersion)
        }
    }
}

impl TryFromSpecImpl<&[u8]> for ProtocolVersion {
    open spec fn obeys_try_from_spec() -> bool {
        true
    }

    open spec fn try_from_spec(v: &[u8]) -> Result<ProtocolVersion, Error> {
        ProtocolVersion::decode(v@)
    }
}

/// One more byte appended to a number written in base 256.
pub open spec fn shift_in(high: int, low: u8) -> int {
    high * 256 + low
}

/// The number that eight bytes spell when the first byte is the most
/// significant one.
pub open spec fn be_word(bytes: Seq<u8>) -> int
    recommends
        bytes.len() == 8,
{
    shift_in(
        shift_in(
            shift_in(
                shift_in(
                    shift_in(
                        shift_in(shift_in(bytes[0] as int, bytes[1]), bytes[2]),
                        bytes[3],
                    ),
                    bytes[4],
                ),
                bytes[5],
            ),
            bytes[6],
        ),
        bytes[7],
    )
}

/// Eight bytes spell a number that fits in 64 bits.
pub proof fn lemma_be_word_bounds(bytes: Seq<u8>)
    requires
        bytes.len() == 8,
    ensures
        0 <= be_word(bytes) <= u64::MAX,
{
}

/// Two different sequences of eight bytes never spell the same number.
pub proof fn lemma_be_word_injective(a: Seq<u8>, b: Seq<u8>)
    requires
        a.len() == 8,
        b.len() == 8,
        be_word(a) == be_word(b),
    ensures
        a == b,
{
}

/// The lower-case hexadecimal digit of a value below 16.
pub open spec fn hex_digit(nibble: int) -> char
    recommends
        0 <= nibble < 16,
{
    seq!['0', '1', '2', '3', '4', '5', '6', '7', '8', '9', 'a', 'b', 'c', 'd', 'e', 'f'][nibble]
}

/// Bytes written as lower-case hexadecimal text, two digits for each byte,
/// the high one first.
pub open spec fn hex_lower(bytes: Seq<u8>) -> Seq<char> {
    Seq::new(
        2 * bytes.len(),
        |i: int|
            if i % 2 == 0 {
                hex_digit(bytes[i / 2] as int / 16)
            } else {
                hex_digit(bytes[i / 2] as int % 16)
            },
    )
}

/// `hex::encode` on a slice of bytes. The contract claims what the crate
/// documents: the text has two lower-case hexadecimal digits for each byte,
/// in the order of the bytes, the high digit first.
#[verifier::external_body]
pub(crate) fn hex_encode(bytes: &[u8]) -> (text: String)
    ensures
        text@ == hex_lower(bytes@),
{
    hex::encode(bytes)
}

/// The identifier of a gateway: eight bytes, in the order of the wire.
#[derive(Clone, Copy, Eq, PartialEq, Hash, Debug)]
pub struct GatewayId(pub [u8; 8]);

impl View for GatewayId {
    type V = Seq<u8>;

    open spec fn view(&self) -> Seq<u8> {
        self.0@
    }
}

impl GatewayId {
    /// The identifier as one number, by which the tables find a gateway.
    pub open spec fn key(self) -> u64 {
        be_word(self@) as u64
    }

    /// The identifier that holds the first eight of the given bytes.
    pub open spec fn of_bytes(bytes: Seq<u8>) -> GatewayId
        recommends
            bytes.len() == 8,
    {
        GatewayId(
            [bytes[0], bytes[1], bytes[2], bytes[3], bytes[4], bytes[5], bytes[6], bytes[7]],
        )
    }

    /// What decoding the gateway identifier of a frame gives: the bytes at
    /// offsets 4 to 11, or an error when the frame ends before them.
    pub open spec fn decode(frame: Seq<u8>) -> Result<GatewayId, Error> {
        if frame.len() < GATEWAY_ID_END {
            Err(Error::TooShort { expected: GATEWAY_ID_END })
        } else {
            Ok(
                GatewayId::of_bytes(
                    frame.subrange(GATEWAY_ID_OFFSET as int, GATEWAY_ID_END as int),
                ),
            )
        }
    }

    /// The bytes of the identifier, least significant byte first.
    pub fn as_bytes_le(&self) -> (out: [u8; 8])
        ensures
            out@ == self@.reverse(),
    {
        let out: [u8; 8] = [
            self.0[7],
            self.0[6],
            self.0[5],
            self.0[4],
            self.0[3],
            self.0[2],
            self.0[1],
            self.0[0],
        ];
        out
    }

    /// The identifier as sixteen lower-case hexadecimal digits.
    pub fn to_string(&self) -> (text: String)
        ensures
            text@ == hex_lower(self@),
    {
        hex_encode(&self.0)
    }

    /// The number that the identifier spells on the wire.
    pub fn to_key(&self) -> (key: u64)
        ensures
            key == self.key(),
    {
        let k0: u64 = self.0[0] as u64;
        let k1: u64 = k0 * 256 + self.0[1] as u64;
        let k2: u64 = k1 * 256 + self.0[2] as u64;
        let k3: u64 = k2 * 256 + self.0[3] as u64;
        let k4: u64 = k3 * 256 + self.0[4] as u64;
        let k5: u64 = k4 * 256 + self.0[5] as u64;
        let k6: u64 = k5 * 256 + self.0[6] as u64;
        k6 * 256 + self.0[7] as u64
    }

    /// The identifier that spells the given number on the wire.
    pub fn from_key(key: u64) -> (id: GatewayId)
        ensures
            id.key() == key,
    {
        let b7: u8 = (key % 256) as u8;
        let q6: u64 = key / 256;
        let b6: u8 = (q6 % 256) as u8;
        let q5: u64 = q6 / 256;
        let b5: u8 = (q5 % 256) as u8;
        let q4: u64 = q5 / 256;
        let b4: u8 = (q4 % 256) as u8;
        let q3: u64 = q4 / 256;
        let b3: u8 = (q3 % 256) as u8;
        let q2: u64 = q3 / 256;
        let b2: u8 = (q2 % 256) as u8;
        let q1: u64 = q2 / 256;
        let b1: u8 = (q1 % 256) as u8;
        let q0: u64 = q1 / 256;
        let b0: u8 = q0 as u8;
        GatewayId([b0, b1, b2, b3, b4, b5, b6, b7])
    }

    /// Two identifiers with the same key hold the same bytes.
    pub proof fn lemma_key_injective(self, other: GatewayId)
        requires
            self.key() == other.key(),
        ensures
            self@ == other@,
    {
        lemma_be_word_bounds(self@);
        lemma_be_word_bounds(other@);
        lemma_be_word_injective(self@, other@);
    }
}

impl TryFrom<&[u8]> for GatewayId {
    type Error = Error;

    fn try_from(v: &[u8]) -> (decoded: Result<GatewayId, Error>) {
        if v.len() < GATEWAY_ID_END {
            return Err(Error::TooShort { expected: GATEWAY_ID_END });
        }
        let id = GatewayId([v[4], v[5], v[6], v[7], v[8], v[9], v[10], v[11]]);
        Ok(id)
    }
}

impl TryFromSpecImpl<&[u8]> for GatewayId {
    open spec fn obeys_try_from_spec() -> bool {
        true
    }

    open spec fn try_from_spec(v: &[u8]) -> Result<GatewayId, Error> {
        GatewayId::decode(v@)
    }
}

/// The token of a frame: its second and third byte, read as one number with
/// the second byte as the high one.
pub open spec fn random_token(frame: Seq<u8>) -> Result<u16, Error> {
    if frame.len() < 3 {
        Err(Error::TooShort { expected: 3 })
    } else {
        Ok((frame[1] * 256 + frame[2]) as u16)
    }
}

/// Reads the token of a frame.
pub fn get_random_token(v: &[u8]) -> (token: Result<u16, Error>)
    ensures
        token == random_token(v@),
{
    if v.len() < 3 {
        return Err(Error::TooShort { expected: 3 });
    }
    let high: u16 = v[1] as u16;
    let low: u16 = v[2] as u16;
    Ok(high * 256 + low)
}

/// The acknowledgement of a frame: its version and token, followed by the
/// code of the acknowledging packet type.
pub open spec fn ack_frame(frame: Seq<u8>, ack_type: PacketType) -> Seq<u8>
    recommends
        frame.len() >= 3,
{
    seq![frame[0], frame[1], frame[2], ack_type.code()]
}

/// Builds the four bytes that acknowledge a frame.
pub fn build_ack(v: &[u8], ack_type: PacketType) -> (ack: [u8; 4])
    requires
        v@.len() >= 3,
    ensures
        ack@ == ack_frame(v@, ack_type),
{
    let ack: [u8; 4] = [v[0], v[1], v[2], u8::from(ack_type)];
    ack
}

} // verus!
