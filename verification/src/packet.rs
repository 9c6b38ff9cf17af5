//! The packet record and its two conversions: encode to a byte buffer and
//! decode from one.
//!
//! Wire layout, all multi-byte integers big-endian:
//!
//! | offset | size | field |
//! |--------|------|-------|
//! | 0      | 1    | direction byte code |
//! | 1      | 2    | remote port |
//! | 3      | 4    | remote IPv4 address |
//! | 7      | 2    | payload length |
//! | 9      | N    | payload bytes, verbatim |
//!
//! Decoding reads the payload as the last `size` bytes of the buffer (tail
//! extraction), not as the bytes at offsets 9 up to `9 + size`: when a buffer
//! carries extra bytes between header and payload the two readings differ,
//! and this codec keeps the tail reading. Both agree on exact-fit buffers
//! (see [`lemma_exact_fit_extraction`]).

use vstd::prelude::*;
use vstd::slice::{slice_index_get, slice_subrange, slice_to_vec};
use vstd::string::StringExecFns;
use crate::direction::Direction;
use crate::text::{push_dec_u64, push_hex_byte, spec_dec, spec_hex2};

verus! {

/// A remote IPv4 address as its four octets, in the order they are written
/// on the wire (the order they are read in dotted-quad notation).
#[derive(Copy, Clone, PartialEq, Eq, Structural, Debug)]
pub struct Ipv4Addr {
    pub a: u8,
    pub b: u8,
    pub c: u8,
    pub d: u8,
}

/// The one recoverable decoding failure: the buffer is too short to hold a
/// full header, or the declared payload length exceeds the bytes available.
#[derive(Copy, Clone, PartialEq, Eq, Structural, Debug)]
pub enum Error {
    CanNotDeserialize,
}

/// The mathematical value of a packet: what the codec preserves.
#[verifier::ext_equal]
pub struct PacketModel {
    pub direction: Direction,
    pub ip: Ipv4Addr,
    pub port: u16,
    pub payload: Seq<u8>,
}

impl PacketModel {
    /// A packet value that the wire format can carry: the payload length
    /// must fit the 16-bit length field.
    pub open spec fn wf(self) -> bool {
        self.payload.len() <= 65535
    }
}

/// The high byte of a 16-bit integer in big-endian order.
pub open spec fn spec_be16_hi(x: u16) -> u8 {
    (x / 256) as u8
}

/// The low byte of a 16-bit integer in big-endian order.
pub open spec fn spec_be16_lo(x: u16) -> u8 {
    (x % 256) as u8
}

/// The 16-bit integer read big-endian from two bytes.
pub open spec fn spec_be16_join(hi: u8, lo: u8) -> u16 {
    (hi * 256 + lo) as u16
}

/// Law: splitting a 16-bit integer into its big-endian bytes and joining
/// them again is the identity.
pub proof fn lemma_be16_round_trip(x: u16)
    ensures
        spec_be16_join(spec_be16_hi(x), spec_be16_lo(x)) == x,
{
}

/// The 9-byte header of a packet value. The length field holds the payload
/// length, which is meaningful when the value is well-formed ([`PacketModel::wf`]).
pub open spec fn spec_header(m: PacketModel) -> Seq<u8> {
    let len16: u16 = m.payload.len() as u16;
    seq![
        m.direction.spec_to_byte(),
        spec_be16_hi(m.port),
        spec_be16_lo(m.port),
        m.ip.a,
        m.ip.b,
        m.ip.c,
        m.ip.d,
        spec_be16_hi(len16),
        spec_be16_lo(len16),
    ]
}

/// The encoded form of a packet value: header then payload, verbatim.
pub open spec fn spec_encode(m: PacketModel) -> Seq<u8> {
    spec_header(m) + m.payload
}

/// The value a buffer decodes to, or `None` where decoding must fail:
/// a buffer shorter than the 9-byte header, or one whose declared payload
/// length exceeds the bytes that follow. The payload is the last `size`
/// bytes of the buffer (tail extraction).
pub open spec fn spec_decode(buf: Seq<u8>) -> Option<PacketModel> {
    if buf.len() < 9 {
        None
    } else {
        let size: int = spec_be16_join(buf[7], buf[8]) as int;
        if buf.len() < 9 + size {
            None
        } else {
            Some(PacketModel {
                direction: Direction::spec_from_byte(buf[0]),
                ip: Ipv4Addr { a: buf[3], b: buf[4], c: buf[5], d: buf[6] },
                port: spec_be16_join(buf[1], buf[2]),
                payload: buf.subrange(buf.len() - size, buf.len() as int),
            })
        }
    }
}

/// The one-line human-readable summary of a packet value: the direction
/// label, the address in dotted-quad notation, the first two payload bytes
/// in hexadecimal as an id preview, and the payload length. A payload
/// shorter than two bytes has no id to preview, so that part is omitted
/// rather than read out of bounds.
pub open spec fn spec_display(m: PacketModel) -> Seq<char> {
    let head = m.direction.spec_label() + "("@ + spec_dec(m.ip.a as nat) + "."@ + spec_dec(
        m.ip.b as nat,
    ) + "."@ + spec_dec(m.ip.c as nat) + "."@ + spec_dec(m.ip.d as nat) + ")"@;
    if m.payload.len() >= 2 {
        head + " id: ["@ + spec_hex2(m.payload[0]) + ", "@ + spec_hex2(m.payload[1]) + "]"@
            + ", size: "@ + spec_dec(m.payload.len())
    } else {
        head + ", size: "@ + spec_dec(m.payload.len())
    }
}

/// A packet: direction tag, remote endpoint, and the owned payload bytes.
#[derive(Clone, Debug)]
pub struct PoePacket {
    pub direction: Direction,
    pub ip: Ipv4Addr,
    pub port: u16,
    pub payload: Vec<u8>,
}

impl PartialEq for PoePacket {
    fn eq(&self, other: &Self) -> (r: bool) {
        let r = self.direction == other.direction && self.ip == other.ip && self.port
            == other.port && self.payload == other.payload;
        proof {
            if r {
                assert(self@ =~= other@);
            }
        }
        r
    }
}

impl Eq for PoePacket {
}

impl vstd::std_specs::cmp::PartialEqSpecImpl for PoePacket {
    open spec fn obeys_eq_spec() -> bool {
        true
    }

    open spec fn eq_spec(&self, other: &Self) -> bool {
        self@ == other@
    }
}

impl View for PoePacket {
    type V = PacketModel;

    open spec fn view(&self) -> PacketModel {
        PacketModel {
            direction: self.direction,
            ip: self.ip,
            port: self.port,
            payload: self.payload@,
        }
    }
}

impl PoePacket {
    /// The struct invariant the wire format demands: see [`PacketModel::wf`].
    pub open spec fn wf(self) -> bool {
        self@.wf()
    }

    /// Builds a packet that owns a copy of the given payload bytes.
    ///
    /// Performs no validation of the payload length: a payload longer than
    /// 65535 bytes cannot be framed, and [`PoePacket::to_buf`] demands the
    /// bound as its precondition instead.
    pub fn new(payload_slice: &[u8], direction: Direction, ip: Ipv4Addr, port: u16) -> (p: Self)
        ensures
            p.direction == direction,
            p.ip == ip,
            p.port == port,
            p.payload@ == payload_slice@,
    {
        let payload = slice_to_vec(payload_slice);
        PoePacket { direction, payload, ip, port }
    }

    /// Encodes the packet: a fresh buffer of exactly `9 + payload.len()`
    /// bytes in the wire layout, the packet unchanged.
    ///
    /// An over-long payload is rejected by the precondition rather than
    /// truncated: the length field could not have carried it.
    pub fn to_buf(&self) -> (buf: Vec<u8>)
        requires
            self.wf(),
        ensures
            buf@ == spec_encode(self@),
            buf@.len() == 9 + self.payload@.len(),
    {
        let mut buf: Vec<u8> = Vec::new();
        buf.push(self.direction.to_byte());
        buf.push((self.port / 256) as u8);
        buf.push((self.port % 256) as u8);
        buf.push(self.ip.a);
        buf.push(self.ip.b);
        buf.push(self.ip.c);
        buf.push(self.ip.d);
        let len16: u16 = self.payload.len() as u16;
        buf.push((len16 / 256) as u8);
        buf.push((len16 % 256) as u8);
        proof {
            assert(buf@ =~= spec_header(self@));
        }
        let mut i: usize = 0;
        while i < self.payload.len()
            invariant
                i <= self.payload@.len(),
                buf@ == spec_header(self@) + self.payload@.subrange(0, i as int),
            decreases self.payload@.len() - i,
        {
            buf.push(self.payload[i]);
            proof {
                assert(buf@ =~= spec_header(self@) + self.payload@.subrange(0, i + 1));
            }
            i = i + 1;
        }
        proof {
            assert(self.payload@.subrange(0, self.payload@.len() as int) =~= self.payload@);
        }
        buf
    }

    /// Decodes a buffer. Succeeds exactly on the buffers [`spec_decode`]
    /// accepts and returns their value; every malformed buffer yields
    /// [`Error::CanNotDeserialize`]. The payload is taken from the tail of
    /// the buffer (see the module documentation).
    pub fn from_buf(buf: &[u8]) -> (r: Result<Self, Error>)
        ensures
            match r {
                Ok(p) => spec_decode(buf@) == Some(p@),
                Err(e) => spec_decode(buf@) is None && e == Error::CanNotDeserialize,
            },
    {
        if buf.len() < 9 {
            return Err(Error::CanNotDeserialize);
        }
        let direction = Direction::from_byte(*slice_index_get(buf, 0));
        let port: u16 = (*slice_index_get(buf, 1) as u16) * 256 + (*slice_index_get(buf, 2) as u16);
        let ip = Ipv4Addr {
            a: *slice_index_get(buf, 3),
            b: *slice_index_get(buf, 4),
            c: *slice_index_get(buf, 5),
            d: *slice_index_get(buf, 6),
        };
        let size16: u16 = (*slice_index_get(buf, 7) as u16) * 256 + (*slice_index_get(buf, 8) as u16);
        let size: usize = size16 as usize;

        if buf.len() - 9 < size {
            return Err(Error::CanNotDeserialize);
        }

        let start: usize = buf.len() - size;
        let payload = slice_to_vec(slice_subrange(buf, start, buf.len()));
        let packet = PoePacket { direction, ip, port, payload };
        proof {
            let m = spec_decode(buf@)->Some_0;
            assert(packet@ =~= m);
        }
        Ok(packet)
    }

    /// Renders the one-line human-readable summary ([`spec_display`]), for
    /// logging. Guarded: a payload shorter than two bytes omits the id
    /// preview instead of failing.
    pub fn display(&self) -> (s: String)
        ensures
            s@ == spec_display(self@),
    {
        let mut s = self.direction.display();
        s.append("(");
        push_dec_u64(&mut s, self.ip.a as u64);
        s.append(".");
        push_dec_u64(&mut s, self.ip.b as u64);
        s.append(".");
        push_dec_u64(&mut s, self.ip.c as u64);
        s.append(".");
        push_dec_u64(&mut s, self.ip.d as u64);
        s.append(")");
        if self.payload.len() >= 2 {
            s.append(" id: [");
            push_hex_byte(&mut s, self.payload[0]);
            s.append(", ");
            push_hex_byte(&mut s, self.payload[1]);
            s.append("]");
        }
        s.append(", size: ");
        push_dec_u64(&mut s, self.payload.len() as u64);
        proof {
            assert(s@ =~= spec_display(self@));
        }
        s
    }
}

/// Law: encoding a well-formed packet value and decoding the result yields
/// the same value back — direction, address, port and payload all equal.
pub proof fn lemma_round_trip(m: PacketModel)
    requires
        m.wf(),
    ensures
        spec_decode(spec_encode(m)) == Some(m),
{
    let buf = spec_encode(m);
    let len16: u16 = m.payload.len() as u16;
    assert(buf.len() == 9 + m.payload.len());
    lemma_be16_round_trip(len16);
    lemma_be16_round_trip(m.port);
    assert(buf[7] == spec_be16_hi(len16) && buf[8] == spec_be16_lo(len16));
    assert(spec_be16_join(buf[7], buf[8]) == m.payload.len());
    let d = spec_decode(buf)->Some_0;
    assert(d.payload =~= m.payload);
    assert(d =~= m);
}

/// Law: a buffer shorter than the 9-byte header never decodes.
pub proof fn lemma_short_buffer_rejected(buf: Seq<u8>)
    requires
        buf.len() < 9,
    ensures
        spec_decode(buf) is None,
{
}

/// Law: a buffer whose declared payload length exceeds the bytes available
/// never decodes.
pub proof fn lemma_truncated_payload_rejected(buf: Seq<u8>)
    requires
        buf.len() >= 9,
        buf.len() < 9 + spec_be16_join(buf[7], buf[8]),
    ensures
        spec_decode(buf) is None,
{
}

/// Law: on an exact-fit buffer — header plus exactly as many bytes as the
/// length field declares — tail extraction and reading from offset 9 agree,
/// so the payload is precisely the bytes after the header.
pub proof fn lemma_exact_fit_extraction(buf: Seq<u8>)
    requires
        buf.len() == 9 + spec_be16_join(buf[7], buf[8]),
    ensures
        spec_decode(buf) is Some,
        spec_decode(buf)->Some_0.payload == buf.subrange(9, buf.len() as int),
{
}

} // verus!
