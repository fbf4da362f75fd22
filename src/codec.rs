//! ICMPv4 messages: echo requests out, echo replies and time-exceeded
//! notifications in. Inbound buffers start with the raw IPv4 header.
use crate::endian::{be16, be16_bytes, read_be16, write_be16};
use vstd::prelude::*;

verus! {

/// ICMP type of an echo reply.
pub const ECHO_REPLY: u8 = 0;

/// ICMP type of an echo request.
pub const ECHO_REQUEST: u8 = 8;

/// ICMP type of a time-exceeded notification.
pub const TIME_EXCEEDED: u8 = 11;

/// Bytes of an ICMP header before any message body.
pub const ICMP_HEADER_LEN: usize = 8;

#[derive(Debug, Clone)]
pub enum TracerError {
    /// The destination could not be resolved to an address.
    BadAddress,
    /// An inbound datagram is not a recognised, decodable ICMP message.
    ParseError,
    /// The codec was misused, such as encoding something other than an echo request.
    Internal(String),
}

impl TracerError {
    /// Text that describes the error.
    pub fn to_string(&self) -> (r: String)
        ensures
            match self {
                TracerError::BadAddress => r@ == "Could not convert to IP address"@,
                TracerError::ParseError => r@ == "Could not parse the incoming packet"@,
                TracerError::Internal(s) => r@ == s@,
            },
    {
        match self {
            TracerError::BadAddress => "Could not convert to IP address".to_owned(),
            TracerError::ParseError => "Could not parse the incoming packet".to_owned(),
            TracerError::Internal(s) => s.clone(),
        }
    }
}

#[derive(Debug, Clone, PartialEq, Eq)]
pub enum Icmpv4Message {
    /// Answer of the destination: it has been reached.
    EchoReply { id: u16, seq_num: u16, data: Vec<u8> },
    /// The probe sent out.
    EchoMessage { id: u16, seq_num: u16, data: Vec<u8> },
    /// A router dropped the probe: the IP header of the dropped datagram and
    /// the first eight bytes that followed it.
    TimeLimitExceeded { raw_ip_header: Vec<u8>, original_8b: [u8; 8] },
}

#[derive(Debug, Clone, PartialEq, Eq)]
pub struct Icmpv4Packet {
    pub icmp_type: u8,
    pub code: u8,
    pub checksum: u16,
    pub message: Icmpv4Message,
}

/// Length in bytes of an IPv4 header whose first byte is `first`: the low four
/// bits count 32-bit words.
pub open spec fn ihl_of(first: u8) -> int {
    (first % 16) as int * 4
}

/// The wire form of an echo message: type, code, checksum, identifier and
/// sequence number, then the payload.
pub open spec fn echo_bytes(
    icmp_type: u8,
    code: u8,
    checksum: u16,
    id: u16,
    seq_num: u16,
    data: Seq<u8>,
) -> Seq<u8> {
    seq![icmp_type, code] + be16_bytes(checksum) + be16_bytes(id) + be16_bytes(seq_num) + data
}

/// Where the ICMP message of an inbound buffer starts, after its IPv4 header.
pub open spec fn icmp_start(b: Seq<u8>) -> int {
    ihl_of(b[0])
}

/// Type byte of the ICMP message of `b`.
pub open spec fn type_of(b: Seq<u8>) -> u8 {
    b[icmp_start(b)]
}

/// Length of the IPv4 header embedded in a time-exceeded message.
pub open spec fn inner_ihl(b: Seq<u8>) -> int {
    ihl_of(b[icmp_start(b) + 8])
}

/// Whether `b` holds a whole ICMP header after its IPv4 header.
pub open spec fn has_icmp_header(b: Seq<u8>) -> bool {
    b.len() > 0 && b.len() >= icmp_start(b) + 8
}

/// Whether a time-exceeded message in `b` holds its whole embedded IPv4 header
/// and the eight bytes after it.
pub open spec fn has_embedded_datagram(b: Seq<u8>) -> bool {
    b.len() > icmp_start(b) + 8 && b.len() >= icmp_start(b) + 16 + inner_ihl(b)
}

/// Whether `decode` accepts `b`: an echo reply, or a time-exceeded message
/// with its embedded datagram.
pub open spec fn decodable(b: Seq<u8>) -> bool {
    has_icmp_header(b) && (type_of(b) == ECHO_REPLY || (type_of(b) == TIME_EXCEEDED
        && has_embedded_datagram(b)))
}

/// Identifier of the echo message in `b`.
pub open spec fn echo_id_of(b: Seq<u8>) -> int {
    be16(b[icmp_start(b) + 4], b[icmp_start(b) + 5])
}

/// Sequence number of the echo message in `b`.
pub open spec fn echo_seq_of(b: Seq<u8>) -> int {
    be16(b[icmp_start(b) + 6], b[icmp_start(b) + 7])
}

/// Payload of the echo message in `b`: all that follows its header.
pub open spec fn payload_of(b: Seq<u8>) -> Seq<u8> {
    b.subrange(icmp_start(b) + 8, b.len() as int)
}

/// Whether `p` is what `b` holds, given that `decodable(b)`.
pub open spec fn decoded_from(p: Icmpv4Packet, b: Seq<u8>) -> bool {
    let h = icmp_start(b);
    &&& p.icmp_type == type_of(b)
    &&& p.code == b[h + 1]
    &&& p.checksum as int == be16(b[h + 2], b[h + 3])
    &&& match p.message {
        Icmpv4Message::EchoReply { id, seq_num, data } => {
            &&& type_of(b) == ECHO_REPLY
            &&& id as int == echo_id_of(b)
            &&& seq_num as int == echo_seq_of(b)
            &&& data@ == payload_of(b)
        },
        Icmpv4Message::TimeLimitExceeded { raw_ip_header, original_8b } => {
            &&& type_of(b) == TIME_EXCEEDED
            &&& raw_ip_header@ == b.subrange(h + 8, h + 8 + inner_ihl(b))
            &&& original_8b@ == b.subrange(h + 8 + inner_ihl(b), h + 16 + inner_ihl(b))
        },
        Icmpv4Message::EchoMessage { .. } => false,
    }
}

/// An encoded echo request, placed after an IPv4 header and with its type
/// byte set to echo reply, decodes to an echo reply with the same identifier,
/// sequence number and payload.
pub proof fn lemma_echo_round_trip(
    header: Seq<u8>,
    icmp_type: u8,
    code: u8,
    checksum: u16,
    id: u16,
    seq_num: u16,
    data: Seq<u8>,
)
    requires
        header.len() > 0,
        header.len() == ihl_of(header[0]),
    ensures
        ({
            let b = header + echo_bytes(icmp_type, code, checksum, id, seq_num, data).update(
                0,
                ECHO_REPLY,
            );
            &&& decodable(b)
            &&& type_of(b) == ECHO_REPLY
            &&& echo_id_of(b) == id as int
            &&& echo_seq_of(b) == seq_num as int
            &&& payload_of(b) == data
        }),
{
    let e = echo_bytes(icmp_type, code, checksum, id, seq_num, data).update(0, ECHO_REPLY);
    let b = header + e;
    let h = header.len() as int;
    assert(icmp_start(b) == h);
    assert(b[h + 4] == (id / 256) as u8 && b[h + 5] == (id % 256) as u8);
    assert(b[h + 6] == (seq_num / 256) as u8 && b[h + 7] == (seq_num % 256) as u8);
    assert(payload_of(b) =~= data);
}

/// Length of an IPv4 header whose first byte is `first`.
fn header_len(first: u8) -> (r: usize)
    ensures
        r as int == ihl_of(first),
{
    assert(first & 0x0f == first % 16) by (bit_vector);
    ((first & 0x0f) as usize) * 4
}

/// Appends the bytes of `src` to `dst`.
fn append_bytes(dst: &mut Vec<u8>, src: &[u8])
    ensures
        final(dst)@ == old(dst)@ + src@,
{
    let mut i: usize = 0;
    while i < src.len()
        invariant
            i <= src@.len(),
            dst@ == old(dst)@ + src@.subrange(0, i as int),
        decreases src@.len() - i,
    {
        dst.push(src[i]);
        i = i + 1;
        assert(src@.subrange(0, i as int) == src@.subrange(0, i - 1) + seq![src@[i - 1]]);
    }
    assert(src@.subrange(0, i as int) == src@);
}

/// The bytes of `b` from `from` up to, not including, `to`.
fn copy_range(b: &[u8], from: usize, to: usize) -> (r: Vec<u8>)
    requires
        from <= to <= b@.len(),
    ensures
        r@ == b@.subrange(from as int, to as int),
{
    let mut r: Vec<u8> = Vec::new();
    let mut i: usize = from;
    while i < to
        invariant
            from <= i <= to,
            to <= b@.len(),
            r@ == b@.subrange(from as int, i as int),
        decreases to - i,
    {
        r.push(b[i]);
        i = i + 1;
        assert(b@.subrange(from as int, i as int) == b@.subrange(from as int, i - 1) + seq![b@[i - 1]]);
    }
    r
}

/// Appends `n` to `dst`, most significant byte first.
fn push_be16(dst: &mut Vec<u8>, n: u16)
    ensures
        final(dst)@ == old(dst)@ + be16_bytes(n),
{
    let b = write_be16(n);
    dst.push(b[0]);
    dst.push(b[1]);
    assert(final(dst)@ =~= old(dst)@ + be16_bytes(n));
}

impl Icmpv4Packet {
    /// An echo request with the checksum field still zero.
    pub fn echo_request(id: u16, seq_num: u16, data: Vec<u8>) -> (r: Icmpv4Packet)
        ensures
            r.icmp_type == ECHO_REQUEST,
            r.code == 0,
            r.checksum == 0,
            r.message == (Icmpv4Message::EchoMessage { id, seq_num, data }),
    {
        Icmpv4Packet {
            icmp_type: ECHO_REQUEST,
            code: 0,
            checksum: 0,
            message: Icmpv4Message::EchoMessage { id, seq_num, data },
        }
    }

    /// The wire form of an echo request. The checksum field is written as it
    /// stands; any other message is refused with an internal error.
    pub fn encode(&self) -> (r: Result<Vec<u8>, TracerError>)
        ensures
            match self.message {
                Icmpv4Message::EchoMessage { id, seq_num, data } => r is Ok && r->Ok_0@
                    == echo_bytes(self.icmp_type, self.code, self.checksum, id, seq_num, data@),
                _ => r is Err && r->Err_0 is Internal,
            },
    {
        match &self.message {
            Icmpv4Message::EchoMessage { id, seq_num, data } => {
                let mut bytes: Vec<u8> = Vec::new();
                bytes.push(self.icmp_type);
                bytes.push(self.code);
                push_be16(&mut bytes, self.checksum);
                push_be16(&mut bytes, *id);
                push_be16(&mut bytes, *seq_num);
                append_bytes(&mut bytes, data.as_slice());
                assert(bytes@ =~= echo_bytes(
                    self.icmp_type,
                    self.code,
                    self.checksum,
                    *id,
                    *seq_num,
                    data@,
                ));
                Ok(bytes)
            },
            _ => Err(TracerError::Internal("only echo requests can be encoded".to_owned())),
        }
    }

    /// Reads the ICMP message that follows the IPv4 header at the start of `b`.
    /// Echo replies and time-exceeded notifications are recognised; any other
    /// type, and any buffer too short for what it announces, is a parse error.
    pub fn decode(b: &[u8]) -> (r: Result<Icmpv4Packet, TracerError>)
        ensures
            r is Ok <==> decodable(b@),
            r is Ok ==> decoded_from(r->Ok_0, b@),
            r is Err ==> r->Err_0 is ParseError,
    {
        if b.len() == 0 {
            return Err(TracerError::ParseError);
        }
        let h = header_len(b[0]);
        if b.len() < h + ICMP_HEADER_LEN {
            return Err(TracerError::ParseError);
        }
        let icmp_type = b[h];
        let code = b[h + 1];
        let checksum = read_be16(b, h + 2);
        let message = if icmp_type == TIME_EXCEEDED {
            if b.len() <= h + 8 {
                return Err(TracerError::ParseError);
            }
            let inner = header_len(b[h + 8]);
            if b.len() < h + 16 + inner {
                return Err(TracerError::ParseError);
            }
            let raw_ip_header = copy_range(b, h + 8, h + 8 + inner);
            let s = h + 8 + inner;
            let original_8b: [u8; 8] = [
                b[s],
                b[s + 1],
                b[s + 2],
                b[s + 3],
                b[s + 4],
                b[s + 5],
                b[s + 6],
                b[s + 7],
            ];
            assert(original_8b@ =~= b@.subrange(s as int, s + 8));
            Icmpv4Message::TimeLimitExceeded { raw_ip_header, original_8b }
        } else if icmp_type == ECHO_REPLY {
            Icmpv4Message::EchoReply {
                id: read_be16(b, h + 4),
                seq_num: read_be16(b, h + 6),
                data: copy_range(b, h + 8, b.len()),
            }
        } else {
            return Err(TracerError::ParseError);
        };
        Ok(Icmpv4Packet { icmp_type, code, checksum, message })
    }
}

} // verus!
