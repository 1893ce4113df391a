use vstd::prelude::*;
use vstd::slice::slice_to_vec;
use vstd::utf8::{encode_scalar, encode_utf8};

use crate::utils::errors::{message_spec, Error};

verus! {

// ---------------------------------------------------------------------------
// Little-endian 32-bit fields
// ---------------------------------------------------------------------------
/// The four little-endian bytes of `x`.
pub open spec fn le32(x: u32) -> Seq<u8> {
    seq![
        (x & 0xff) as u8,
        ((x >> 8) & 0xff) as u8,
        ((x >> 16) & 0xff) as u8,
        ((x >> 24) & 0xff) as u8,
    ]
}

/// The 32-bit value encoded by four little-endian bytes.
pub open spec fn le32_val(b0: u8, b1: u8, b2: u8, b3: u8) -> u32 {
    (b0 as u32) | ((b1 as u32) << 8) | ((b2 as u32) << 16) | ((b3 as u32) << 24)
}

/// Reading four little-endian bytes back gives the bytes' value.
pub proof fn lemma_le32_of_val(b0: u8, b1: u8, b2: u8, b3: u8)
    ensures
        le32(le32_val(b0, b1, b2, b3)) =~= seq![b0, b1, b2, b3],
{
    let x = le32_val(b0, b1, b2, b3);
    assert((x & 0xff) as u8 == b0 && ((x >> 8) & 0xff) as u8 == b1 && ((x >> 16) & 0xff) as u8
        == b2 && ((x >> 24) & 0xff) as u8 == b3) by (bit_vector)
        requires
            x == (b0 as u32) | ((b1 as u32) << 8) | ((b2 as u32) << 16) | ((b3 as u32) << 24),
    ;
}

/// Reads a 32-bit little-endian value from four bytes.
pub fn u32_from_le(b0: u8, b1: u8, b2: u8, b3: u8) -> (r: u32)
    ensures
        r == le32_val(b0, b1, b2, b3),
{
    (b0 as u32) | ((b1 as u32) << 8) | ((b2 as u32) << 16) | ((b3 as u32) << 24)
}

/// Appends the four little-endian bytes of `x` to `out`.
pub fn push_le32(out: &mut Vec<u8>, x: u32)
    ensures
        final(out)@ =~= old(out)@ + le32(x),
{
    out.push((x & 0xff) as u8);
    out.push(((x >> 8) & 0xff) as u8);
    out.push(((x >> 16) & 0xff) as u8);
    out.push(((x >> 24) & 0xff) as u8);
}

/// The 64-bit value encoded by eight little-endian bytes.
pub open spec fn le64_val(
    b0: u8,
    b1: u8,
    b2: u8,
    b3: u8,
    b4: u8,
    b5: u8,
    b6: u8,
    b7: u8,
) -> u64 {
    (b0 as u64) | ((b1 as u64) << 8) | ((b2 as u64) << 16) | ((b3 as u64) << 24) | ((
    b4 as u64) << 32) | ((b5 as u64) << 40) | ((b6 as u64) << 48) | ((b7 as u64) << 56)
}

/// Reads a 64-bit little-endian value from eight bytes.
pub fn u64_from_le(b0: u8, b1: u8, b2: u8, b3: u8, b4: u8, b5: u8, b6: u8, b7: u8) -> (r: u64)
    ensures
        r == le64_val(b0, b1, b2, b3, b4, b5, b6, b7),
{
    (b0 as u64) | ((b1 as u64) << 8) | ((b2 as u64) << 16) | ((b3 as u64) << 24) | ((
    b4 as u64) << 32) | ((b5 as u64) << 40) | ((b6 as u64) << 48) | ((b7 as u64) << 56)
}

// ---------------------------------------------------------------------------
// Packet kinds
// ---------------------------------------------------------------------------
/// The four packet kinds of the wire protocol.
#[derive(Clone, Copy, Debug, PartialEq, Eq, Structural)]
pub enum PacketKind {
    Setup,
    Action,
    Broadcast,
    Error,
}

/// The wire code of each packet kind.
pub open spec fn packet_kind_code(k: PacketKind) -> u32 {
    match k {
        PacketKind::Setup => 1,
        PacketKind::Action => 2,
        PacketKind::Broadcast => 3,
        PacketKind::Error => 255,
    }
}

/// Whether `v` is the code of some packet kind.
pub open spec fn valid_packet_kind(v: u32) -> bool {
    v == 1 || v == 2 || v == 3 || v == 255
}

impl PacketKind {
    /// Decodes a packet-kind code.
    pub fn from_byte(byte: u32) -> (r: Option<Self>)
        ensures
            r is Some <==> valid_packet_kind(byte),
            r matches Some(k) ==> packet_kind_code(k) == byte,
    {
        match byte {
            1 => Some(Self::Setup),
            2 => Some(Self::Action),
            3 => Some(Self::Broadcast),
            255 => Some(Self::Error),
            _ => None,
        }
    }

    /// The four-byte little-endian form of the kind code.
    pub fn bytes(&self) -> (r: [u8; 4])
        ensures
            r@ =~= le32(packet_kind_code(*self)),
    {
        let x: u32 = match self {
            PacketKind::Setup => 0x01,
            PacketKind::Action => 0x02,
            PacketKind::Broadcast => 0x03,
            PacketKind::Error => 0xff,
        };
        [(x & 0xff) as u8, ((x >> 8) & 0xff) as u8, ((x >> 16) & 0xff) as u8, ((x >> 24)
            & 0xff) as u8]
    }
}

// ---------------------------------------------------------------------------
// Frames
// ---------------------------------------------------------------------------
/// A decoded length-delimited frame: a 12-byte header (id, kind, total size,
/// each 32-bit little-endian), the body, and a reserved 2-byte trailer.
#[derive(Clone, Debug)]
pub struct Packet {
    pub id: u32,
    pub size: u32,
    pub body: Vec<u8>,
    pub kind: PacketKind,
}

/// The exact bytes `Packet::to_bytes` emits.
pub open spec fn encode_spec(p: Packet) -> Seq<u8> {
    le32(p.id) + le32(packet_kind_code(p.kind)) + le32(p.size) + p.body@ + seq![0u8, 0u8]
}

/// How `Packet::from_bytes` reads a frame: the header fields are taken
/// little-endian and the body is everything between the header and the
/// 2-byte trailer.
pub open spec fn decodes_to(b: Seq<u8>, p: Packet) -> bool {
    &&& b.len() >= 14
    &&& valid_packet_kind(le32_val(b[4], b[5], b[6], b[7]))
    &&& p.id == le32_val(b[0], b[1], b[2], b[3])
    &&& packet_kind_code(p.kind) == le32_val(b[4], b[5], b[6], b[7])
    &&& p.size == le32_val(b[8], b[9], b[10], b[11])
    &&& p.body@ == b.subrange(12, b.len() - 2)
}

/// A frame that decoding accepts and whose reserved trailer is zero.
pub open spec fn wf_frame(b: Seq<u8>) -> bool {
    &&& b.len() >= 14
    &&& valid_packet_kind(le32_val(b[4], b[5], b[6], b[7]))
    &&& b[b.len() - 2] == 0
    &&& b[b.len() - 1] == 0
}

/// Re-encoding a decoded well-formed frame gives back the original bytes.
pub proof fn lemma_packet_round_trip(b: Seq<u8>, p: Packet)
    requires
        wf_frame(b),
        decodes_to(b, p),
    ensures
        encode_spec(p) =~= b,
{
    lemma_le32_of_val(b[0], b[1], b[2], b[3]);
    lemma_le32_of_val(b[4], b[5], b[6], b[7]);
    lemma_le32_of_val(b[8], b[9], b[10], b[11]);
}

impl Packet {
    /// Decodes a frame. Frames shorter than the 14 bytes of header plus
    /// trailer are rejected with code 101, frames with an unknown kind with
    /// code 102.
    pub fn from_bytes(b: &[u8]) -> (r: Result<Packet, Error>)
        ensures
            b@.len() < 14 ==> r == Err::<Packet, Error>(Error::PacketParsingFailed(101)),
            b@.len() >= 14 && !valid_packet_kind(le32_val(b@[4], b@[5], b@[6], b@[7])) ==> r
                == Err::<Packet, Error>(Error::PacketParsingFailed(102)),
            r matches Ok(p) ==> decodes_to(b@, p),
            r is Ok <==> b@.len() >= 14 && valid_packet_kind(le32_val(b@[4], b@[5], b@[6], b@[7])),
    {
        if b.len() < 14 {
            return Err(Error::PacketParsingFailed(101));
        }
        let kind_val = u32_from_le(b[4], b[5], b[6], b[7]);
        match PacketKind::from_byte(kind_val) {
            None => Err(Error::PacketParsingFailed(102)),
            Some(kind) => {
                let id = u32_from_le(b[0], b[1], b[2], b[3]);
                let size = u32_from_le(b[8], b[9], b[10], b[11]);
                let end = b.len() - 2;
                let mut body: Vec<u8> = Vec::new();
                let mut i: usize = 12;
                while i < end
                    invariant
                        12 <= i <= end,
                        end == b@.len() - 2,
                        b@.len() >= 14,
                        body@ =~= b@.subrange(12, i as int),
                    decreases end - i,
                {
                    body.push(b[i]);
                    i = i + 1;
                }
                assert(body@ =~= b@.subrange(12, b@.len() - 2));
                Ok(Self { id, size, body, kind })
            },
        }
    }

    /// Builds a frame around `body`. The recorded size is the full frame
    /// length: header, body and trailer.
    pub fn create(id: u32, packet_kind: PacketKind, body: &[u8]) -> (p: Packet)
        requires
            body@.len() + 14 <= u32::MAX,
        ensures
            p.id == id,
            p.kind == packet_kind,
            p.size == body@.len() + 14,
            p.body@ == body@,
    {
        Packet {
            id,
            kind: packet_kind,
            size: (body.len() as u32) + 14,
            body: slice_to_vec(body),
        }
    }

    /// Builds the `Error`-kind reply whose body is the error's display
    /// string in UTF-8.
    pub fn error(id: u32, error: Error) -> (p: Packet)
        ensures
            p.id == id,
            p.kind == PacketKind::Error,
            p.body@ == encode_utf8(message_spec(error)),
    {
        proof {
            lemma_message_len(error);
            lemma_encode_utf8_len(message_spec(error));
        }
        let msg = error.message();
        Packet::create(id, PacketKind::Error, msg.as_str().as_bytes())
    }

    /// Emits the frame: header fields little-endian, then the body, then the
    /// zero trailer.
    pub fn to_bytes(&self) -> (r: Vec<u8>)
        ensures
            r@ == encode_spec(*self),
    {
        let mut packet: Vec<u8> = Vec::new();
        push_le32(&mut packet, self.id);
        let kind_bytes = self.kind.bytes();
        packet.push(kind_bytes[0]);
        packet.push(kind_bytes[1]);
        packet.push(kind_bytes[2]);
        packet.push(kind_bytes[3]);
        push_le32(&mut packet, self.size);
        let mut i: usize = 0;
        while i < self.body.len()
            invariant
                i <= self.body.len(),
                packet@ =~= le32(self.id) + le32(packet_kind_code(self.kind)) + le32(self.size)
                    + self.body@.subrange(0, i as int),
            decreases self.body.len() - i,
        {
            packet.push(self.body[i]);
            i = i + 1;
        }
        packet.push(0x00);
        packet.push(0x00);
        assert(packet@ =~= encode_spec(*self));
        packet
    }
}

/// A value with a canonical wire form.
pub trait ToBytes {
    /// The bytes `to_bytes` emits.
    spec fn wire_bytes(&self) -> Seq<u8>;

    /// Emits the wire form.
    fn to_bytes(&self) -> (r: Vec<u8>)
        ensures
            r@ == self.wire_bytes(),
    ;
}

impl ToBytes for Packet {
    open spec fn wire_bytes(&self) -> Seq<u8> {
        encode_spec(*self)
    }

    fn to_bytes(&self) -> (r: Vec<u8>) {
        Packet::to_bytes(self)
    }
}

/// Every error message is short; frames around one always fit the 32-bit
/// size field.
pub proof fn lemma_message_len(e: Error)
    ensures
        message_spec(e).len() <= 64,
{
    reveal_strlit("network error: failed to authenticate client (54)");
    reveal_strlit("network error: failed to authenticate client");
    reveal_strlit("SERVER ERROR: (10)");
    reveal_strlit("SERVER ERROR");
    reveal_strlit("network error: authentication failed");
    reveal_strlit("server error: initialization failed (4)");
    reveal_strlit("server error: initialization failed (5)");
    reveal_strlit("server error: initialization failed");
    reveal_strlit("CLIENT ERROR (55)");
    reveal_strlit("CLIENT ERROR");
    reveal_strlit("CLIENT ERROR (56)");
    reveal_strlit("CLIENT ERROR (57)");
    reveal_strlit("Could not parse received packet (101)");
    reveal_strlit("Could not parse received packet (102)");
    reveal_strlit("Could not parse received packet");
    reveal_strlit("request error: failed to parse target Tile");
    reveal_strlit("request error: failed do parse game action packet (1)");
    reveal_strlit("request error: failed do parse game action packet");
    reveal_strlit("request error: failed to join match");
    reveal_strlit("game error: unable to draw a tile (161)");
    reveal_strlit("game error: unable to draw a tile (162)");
    reveal_strlit("game error: unable to draw a tile (163)");
    reveal_strlit("game error: unable to draw a tile");
    reveal_strlit("game error: could not start match (151)");
    reveal_strlit("game error: could not start match (152)");
    reveal_strlit("game error: could not start match (153)");
    reveal_strlit("game error: could not start match (154)");
    reveal_strlit("game error: could not start match (155)");
    reveal_strlit("game error: could not start match");
    reveal_strlit("game error: could not get next player");
    reveal_strlit("");
    reveal_strlit("game error: could not discard tile (164)");
    reveal_strlit("game error: could not discard tile (165)");
    reveal_strlit("game error: could not get next player");
    reveal_strlit("game error: could not discard tile");
    reveal_strlit("game error: game action failed");
}

/// A UTF-8 encoding takes at most four bytes per character.
pub proof fn lemma_encode_utf8_len(chars: Seq<char>)
    ensures
        encode_utf8(chars).len() <= 4 * chars.len(),
    decreases chars.len(),
{
    if chars.len() > 0 {
        assert(encode_scalar(chars[0] as u32).len() <= 4);
        lemma_encode_utf8_len(chars.drop_first());
    }
}

} // verus!
