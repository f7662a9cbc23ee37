//! Wire format of the sensor bridge: request and response frames, and the
//! reflected CRC-8 (polynomial 0x8C) that guards them.
use vstd::prelude::*;

verus! {

/// First byte of every frame.
pub const MAGIC: u8 = 0xAA;

/// Length byte of the request frame.
pub const REQUEST_LEN: u8 = 0x02;

/// Command byte that asks for the temperatures.
pub const CMD_READ_TEMPS: u8 = 0x20;

/// Number of sensors that a response carries.
pub const SENSOR_COUNT: u8 = 4;

/// Size of a complete response frame.
pub const RESPONSE_LEN: usize = 13;

/// Why a response frame was rejected.
#[derive(Debug, Clone, Copy, PartialEq, Eq, Structural)]
pub enum ParseError {
    /// Fewer than a full frame of bytes; holds the number received.
    TooShort(usize),
    /// The checksum byte disagrees with the checksum of the frame.
    CrcMismatch { received: u8, calculated: u8 },
    /// The command byte is not the temperature command.
    InvalidCommand(u8),
    /// The sensor count byte is not four.
    UnexpectedTempCount(u8),
}

/// Four temperatures, each in tenths of a degree Celsius as sent on the wire.
#[derive(Debug, Clone, Copy, PartialEq, Eq)]
pub struct TemperatureData {
    pub tenths: [u16; 4],
}

/// One shift of the CRC register.
pub open spec fn crc8_shift(crc: u8) -> u8 {
    if crc & 1u8 != 0 {
        (crc >> 1u8) ^ 0x8Cu8
    } else {
        crc >> 1u8
    }
}

/// `n` shifts of the CRC register.
pub open spec fn crc8_shifts(crc: u8, n: nat) -> u8
    decreases n,
{
    if n == 0 {
        crc
    } else {
        crc8_shift(crc8_shifts(crc, (n - 1) as nat))
    }
}

/// The register after feeding one byte.
pub open spec fn crc8_feed(crc: u8, b: u8) -> u8 {
    crc8_shifts(crc ^ b, 8)
}

/// CRC-8 of a byte sequence: the register starts at zero and takes each byte in turn.
pub open spec fn crc8_spec(s: Seq<u8>) -> u8
    decreases s.len(),
{
    if s.len() == 0 {
        0
    } else {
        crc8_feed(crc8_spec(s.drop_last()), s.last())
    }
}

/// The three bytes of a request that precede its checksum.
pub open spec fn request_header() -> Seq<u8> {
    seq![MAGIC, REQUEST_LEN, CMD_READ_TEMPS]
}

/// The request frame: header followed by its checksum.
pub open spec fn request_frame() -> Seq<u8> {
    request_header().push(crc8_spec(request_header()))
}

/// A big-endian 16-bit value.
pub open spec fn be_u16(hi: u8, lo: u8) -> u16 {
    (hi as int * 256 + lo as int) as u16
}

/// The reading carried by bytes 4..12 of a response.
pub open spec fn reading_of(b: Seq<u8>) -> TemperatureData
    recommends
        b.len() >= 12,
{
    TemperatureData {
        tenths: [be_u16(b[4], b[5]), be_u16(b[6], b[7]), be_u16(b[8], b[9]), be_u16(b[10], b[11])],
    }
}

/// What decoding a response yields: the checks run in the order length,
/// checksum, command, count, and the first that fails decides the error.
pub open spec fn parse_spec(b: Seq<u8>) -> Result<TemperatureData, ParseError> {
    if b.len() < RESPONSE_LEN {
        Err(ParseError::TooShort(b.len() as usize))
    } else if b[12] != crc8_spec(b.subrange(0, 12)) {
        Err(ParseError::CrcMismatch { received: b[12], calculated: crc8_spec(b.subrange(0, 12)) })
    } else if b[2] != CMD_READ_TEMPS {
        Err(ParseError::InvalidCommand(b[2]))
    } else if b[3] != SENSOR_COUNT {
        Err(ParseError::UnexpectedTempCount(b[3]))
    } else {
        Ok(reading_of(b))
    }
}

/// CRC-8 with polynomial 0x8C applied LSB first, starting from zero.
pub fn crc8(data: &[u8]) -> (r: u8)
    ensures
        r == crc8_spec(data@),
{
    let mut crc: u8 = 0;
    let mut i: usize = 0;
    while i < data.len()
        invariant
            i <= data@.len(),
            crc == crc8_spec(data@.subrange(0, i as int)),
        decreases data@.len() - i,
    {
        crc = crc ^ data[i];
        let ghost start = crc;
        let mut k: u8 = 0;
        while k < 8
            invariant
                k <= 8,
                crc == crc8_shifts(start, k as nat),
            decreases 8 - k,
        {
            crc = if crc & 1 != 0 {
                (crc >> 1) ^ 0x8C
            } else {
                crc >> 1
            };
            k = k + 1;
        }
        assert(data@.subrange(0, i + 1).drop_last() =~= data@.subrange(0, i as int));
        i = i + 1;
    }
    assert(data@.subrange(0, data@.len() as int) =~= data@);
    crc
}

/// The request frame that asks the device for its temperatures.
pub fn build_request_packet() -> (r: [u8; 4])
    ensures
        r@ == request_frame(),
        r@[0] == MAGIC,
        r@[1] == REQUEST_LEN,
        r@[2] == CMD_READ_TEMPS,
        r@[3] == crc8_spec(r@.subrange(0, 3)),
{
    let header: [u8; 3] = [MAGIC, REQUEST_LEN, CMD_READ_TEMPS];
    assert(header@ =~= request_header());
    let crc = crc8(header.as_slice());
    let r: [u8; 4] = [MAGIC, REQUEST_LEN, CMD_READ_TEMPS, crc];
    assert(r@ =~= request_frame());
    assert(r@.subrange(0, 3) =~= request_header());
    r
}

fn read_be_u16(hi: u8, lo: u8) -> (r: u16)
    ensures
        r == be_u16(hi, lo),
{
    (hi as u16) * 256 + (lo as u16)
}

/// Decodes one response frame; bytes after the frame are ignored.
pub fn parse_response_packet(buffer: &[u8]) -> (r: Result<TemperatureData, ParseError>)
    ensures
        r == parse_spec(buffer@),
        buffer@.len() < RESPONSE_LEN ==> r == Err::<TemperatureData, ParseError>(
            ParseError::TooShort(buffer@.len() as usize),
        ),
        r is Ok <==> buffer@.len() >= RESPONSE_LEN && buffer@[12] == crc8_spec(
            buffer@.subrange(0, 12),
        ) && buffer@[2] == CMD_READ_TEMPS && buffer@[3] == SENSOR_COUNT,
        r matches Ok(d) ==> d == reading_of(buffer@),
{
    if buffer.len() < RESPONSE_LEN {
        return Err(ParseError::TooShort(buffer.len()));
    }
    let received = buffer[12];
    let calculated = crc8(slice_prefix(buffer, 12));
    if received != calculated {
        return Err(ParseError::CrcMismatch { received, calculated });
    }
    if buffer[2] != CMD_READ_TEMPS {
        return Err(ParseError::InvalidCommand(buffer[2]));
    }
    if buffer[3] != SENSOR_COUNT {
        return Err(ParseError::UnexpectedTempCount(buffer[3]));
    }
    let d = TemperatureData {
        tenths: [
            read_be_u16(buffer[4], buffer[5]),
            read_be_u16(buffer[6], buffer[7]),
            read_be_u16(buffer[8], buffer[9]),
            read_be_u16(buffer[10], buffer[11]),
        ],
    };
    Ok(d)
}

fn slice_prefix(s: &[u8], n: usize) -> (r: &[u8])
    requires
        n <= s@.len(),
    ensures
        r@ == s@.subrange(0, n as int),
{
    let (head, _tail) = s.split_at(n);
    head
}

/// The checksum of no bytes at all is zero.
pub proof fn lemma_crc8_empty()
    ensures
        crc8_spec(Seq::<u8>::empty()) == 0,
{
}

/// A frame that decodes, with any other value in its checksum byte, is
/// rejected as a checksum mismatch that reports both values.
pub proof fn lemma_altered_checksum_rejected(b: Seq<u8>, x: u8)
    requires
        parse_spec(b) is Ok,
        x != b[12],
    ensures
        parse_spec(b.update(12, x)) == Err::<TemperatureData, ParseError>(
            ParseError::CrcMismatch { received: x, calculated: b[12] },
        ),
{
    assert(b.update(12, x).subrange(0, 12) =~= b.subrange(0, 12));
}

/// A full frame whose command byte is not the temperature command is rejected
/// for that byte, also when its checksum is right for the altered bytes.
pub proof fn lemma_wrong_command_rejected(b: Seq<u8>)
    requires
        b.len() >= RESPONSE_LEN,
        b[2] != CMD_READ_TEMPS,
        b[12] == crc8_spec(b.subrange(0, 12)),
    ensures
        parse_spec(b) == Err::<TemperatureData, ParseError>(ParseError::InvalidCommand(b[2])),
{
}

} // verus!
