//! Framing and command codec for the HF2 protocol.
//!
//! A transport frame of at most 64 bytes carries one packet: a header byte
//! whose top two bits give the packet kind and whose low six bits give the
//! payload length, followed by the payload. Reassembled command payloads are
//! read and written by the [`command`] module.
use vstd::prelude::*;

pub mod command;

verus! {

/// Largest transport frame, header byte included.
pub const MAX_FRAME_LEN: usize = 64;

/// Errors reported when a frame or a command buffer is rejected.
#[derive(Debug, Clone, Copy, PartialEq, Eq, Structural)]
pub enum Error {
    /// A frame is empty or longer than 64 bytes.
    FrameLength,
    /// The header byte declares more payload than the frame holds.
    PayloadOverrun,
    /// A payload to be framed is longer than 63 bytes.
    PayloadTooLong,
    /// The destination buffer cannot hold the header byte and the payload.
    BufferTooSmall,
    /// A command buffer is shorter than its fixed header.
    HeaderTooShort,
    /// A destination buffer is not exactly header plus data in size.
    SizeMismatch,
}

/// Packet kind.
///
/// Stored in the top two bits of the first byte of the packet.
#[derive(Debug, Clone, Copy, PartialEq, Eq, Structural)]
pub enum PacketKind {
    CommandInner,
    CommandFinal,
    StdOut,
    StdErr,
}

impl PacketKind {
    /// The header bits that mark this kind.
    pub open spec fn spec_tag(self) -> u8 {
        match self {
            PacketKind::CommandInner => 0x00,
            PacketKind::CommandFinal => 0x40,
            PacketKind::StdOut => 0x80,
            PacketKind::StdErr => 0xC0,
        }
    }

    /// The header bits that mark this kind.
    pub fn tag(self) -> (r: u8)
        ensures
            r == self.spec_tag(),
    {
        match self {
            PacketKind::CommandInner => 0x00,
            PacketKind::CommandFinal => 0x40,
            PacketKind::StdOut => 0x80,
            PacketKind::StdErr => 0xC0,
        }
    }
}

/// The kind that a header byte declares: its top two bits.
pub open spec fn kind_of(header: u8) -> PacketKind {
    let bits = header & 0xC0u8;
    if bits == 0x00 {
        PacketKind::CommandInner
    } else if bits == 0x40 {
        PacketKind::CommandFinal
    } else if bits == 0x80 {
        PacketKind::StdOut
    } else {
        PacketKind::StdErr
    }
}

/// The payload length that a header byte declares: its low six bits.
pub open spec fn payload_len(header: u8) -> nat {
    (header & 0x3Fu8) as nat
}

/// The bytes of a frame that carries `payload` as a packet of `kind`.
pub open spec fn encode_frame(kind: PacketKind, payload: Seq<u8>) -> Seq<u8> {
    seq![kind.spec_tag() | (payload.len() as u8)] + payload
}

/// What reading one transport frame gives: the packet's bytes (header and
/// payload, without what follows), or why the frame is rejected.
pub open spec fn decode_frame(frame: Seq<u8>) -> Result<Seq<u8>, Error> {
    if frame.len() == 0 || frame.len() > 64 {
        Err(Error::FrameLength)
    } else if payload_len(frame[0]) + 1 > frame.len() {
        Err(Error::PayloadOverrun)
    } else {
        Ok(frame.subrange(0, payload_len(frame[0]) + 1int))
    }
}

/// The kind of a packet, given its bytes.
pub open spec fn packet_kind(packet: Seq<u8>) -> PacketKind {
    kind_of(packet[0])
}

/// The payload of a packet, given its bytes.
pub open spec fn packet_payload(packet: Seq<u8>) -> Seq<u8> {
    packet.subrange(1, packet.len() as int)
}

/// The header byte of a frame keeps its kind and its payload length apart:
/// the kind bits and a length below 64 are both read back unchanged.
proof fn lemma_header_fields(kind: PacketKind, len: u8)
    requires
        len < 64,
    ensures
        kind_of(kind.spec_tag() | len) == kind,
        payload_len(kind.spec_tag() | len) == len,
{
    let h = kind.spec_tag();
    assert((h | len) & 0x3Fu8 == len && (h | len) & 0xC0u8 == h) by (bit_vector)
        requires
            len < 64,
            h == 0 || h == 0x40 || h == 0x80 || h == 0xC0,
    ;
}

/// Framing a payload of at most 63 bytes and reading the frame back gives
/// the same kind and the same payload, whatever bytes follow the packet in
/// the frame.
pub proof fn lemma_frame_round_trip(kind: PacketKind, payload: Seq<u8>, rest: Seq<u8>)
    requires
        payload.len() <= 63,
        payload.len() + 1 + rest.len() <= 64,
    ensures
        decode_frame(encode_frame(kind, payload) + rest) == Ok::<Seq<u8>, Error>(
            encode_frame(kind, payload),
        ),
        packet_kind(encode_frame(kind, payload)) == kind,
        packet_payload(encode_frame(kind, payload)) == payload,
{
    let frame = encode_frame(kind, payload);
    lemma_header_fields(kind, payload.len() as u8);
    assert((frame + rest)[0] == frame[0]);
    assert((frame + rest).subrange(0, frame.len() as int) =~= frame);
    assert(packet_payload(frame) =~= payload);
}

/// Copies `data` into `buf` from index `at` on; the other bytes of `buf`
/// are left as they were.
pub(crate) fn copy_into(buf: &mut [u8], at: usize, data: &[u8])
    requires
        at + data@.len() <= old(buf)@.len(),
    ensures
        final(buf)@ == old(buf)@.subrange(0, at as int) + data@ + old(buf)@.subrange(
            at + data@.len(),
            old(buf)@.len() as int,
        ),
{
    let n = data.len();
    let total = buf.len();
    let mut i: usize = 0;
    while i < n
        invariant
            n == data@.len(),
            total == buf@.len(),
            at + n <= buf@.len(),
            buf@.len() == old(buf)@.len(),
            0 <= i <= n,
            forall|j: int| 0 <= j < at ==> #[trigger] buf@[j] == old(buf)@[j],
            forall|j: int| at <= j < at + i ==> #[trigger] buf@[j] == data@[j - at],
            forall|j: int| at + i <= j < buf@.len() ==> #[trigger] buf@[j] == old(buf)@[j],
        decreases n - i,
    {
        buf[at + i] = data[i];
        i = i + 1;
    }
    assert(buf@ =~= old(buf)@.subrange(0, at as int) + data@ + old(buf)@.subrange(
        at + data@.len(),
        old(buf)@.len() as int,
    ));
}

impl From<u8> for PacketKind {
    fn from(value: u8) -> (r: Self) {
        let bits = value & 0xC0u8;
        if bits == 0x00 {
            PacketKind::CommandInner
        } else if bits == 0x40 {
            PacketKind::CommandFinal
        } else if bits == 0x80 {
            PacketKind::StdOut
        } else {
            PacketKind::StdErr
        }
    }
}

impl vstd::std_specs::convert::FromSpecImpl<u8> for PacketKind {
    open spec fn obeys_from_spec() -> bool {
        true
    }

    open spec fn from_spec(v: u8) -> PacketKind {
        kind_of(v)
    }
}

/// Packet view into a byte slice: the header byte and the payload.
#[derive(Debug)]
pub struct Packet<'a>(&'a [u8]);

impl<'a> View for Packet<'a> {
    type V = Seq<u8>;

    closed spec fn view(&self) -> Seq<u8> {
        self.0@
    }
}

impl<'a> Packet<'a> {
    /// Maximum payload length.
    pub const MAX_LEN: usize = 63;

    /// A packet holds its header byte and exactly the payload it declares,
    /// within one transport frame.
    #[verifier::type_invariant]
    closed spec fn well_formed(self) -> bool {
        Self::is_packet(self.0@)
    }

    /// The packet's bytes satisfy the framing rules.
    pub open spec fn is_packet(bytes: Seq<u8>) -> bool {
        &&& 1 <= bytes.len() <= 64
        &&& bytes.len() == payload_len(bytes[0]) + 1
    }

    /// Writes a packet of `kind` carrying `data` at the start of `buf`.
    ///
    /// `buf` must be at least one byte longer than `data`; bytes after the
    /// packet are left as they were.
    pub fn new(buf: &'a mut [u8], kind: PacketKind, data: &[u8]) -> (r: Result<Packet<'a>, Error>)
        ensures
            data@.len() > 63 <==> r == Err::<Packet<'a>, Error>(Error::PayloadTooLong),
            data@.len() <= 63 && old(buf)@.len() < data@.len() + 1 <==> r == Err::<
                Packet<'a>,
                Error,
            >(Error::BufferTooSmall),
            r is Ok <==> data@.len() <= 63 && old(buf)@.len() >= data@.len() + 1,
            r is Err ==> final(buf)@ == old(buf)@,
            r is Ok ==> {
                &&& r->Ok_0@ == encode_frame(kind, data@)
                &&& packet_kind(r->Ok_0@) == kind
                &&& packet_payload(r->Ok_0@) == data@
                &&& final(buf)@ == encode_frame(kind, data@) + old(buf)@.subrange(
                    data@.len() + 1int,
                    old(buf)@.len() as int,
                )
            },
    {
        if data.len() > Self::MAX_LEN {
            return Err(Error::PayloadTooLong);
        }
        if buf.len() < data.len() + 1 {
            return Err(Error::BufferTooSmall);
        }
        let n = data.len();
        copy_into(buf, 1, data);
        buf[0] = kind.tag() | (n as u8);
        let whole: &'a [u8] = buf;
        let frame = vstd::slice::slice_subrange(whole, 0, n + 1);
        assert(frame@ =~= encode_frame(kind, data@));
        assert(whole@ =~= encode_frame(kind, data@) + old(buf)@.subrange(
            n + 1,
            old(buf)@.len() as int,
        ));
        proof {
            lemma_frame_round_trip(kind, data@, Seq::empty());
        }
        Ok(Packet(frame))
    }

    /// Reads the packet carried by one transport frame.
    ///
    /// The frame must hold 1 to 64 bytes and at least the payload that its
    /// header byte declares; bytes after the payload are not part of the
    /// packet.
    pub fn from_bytes(buf: &'a [u8]) -> (r: Result<Packet<'a>, Error>)
        ensures
            buf@.len() == 0 || buf@.len() > 64 ==> r == Err::<Packet<'a>, Error>(
                Error::FrameLength,
            ),
            r is Ok <==> decode_frame(buf@) is Ok,
            r is Ok ==> r->Ok_0@ == decode_frame(buf@)->Ok_0,
            r is Err ==> decode_frame(buf@) == Err::<Seq<u8>, Error>(r->Err_0),
    {
        if buf.len() == 0 || buf.len() > MAX_FRAME_LEN {
            return Err(Error::FrameLength);
        }
        let len = (buf[0] & 0x3Fu8) as usize;
        if len + 1 > buf.len() {
            return Err(Error::PayloadOverrun);
        }
        let frame = vstd::slice::slice_subrange(buf, 0, len + 1);
        Ok(Packet(frame))
    }

    /// Returns the length of the packet including the header byte.
    ///
    /// Use `.data().len()` to get the size of just the payload.
    pub fn len(&self) -> (r: usize)
        ensures
            r == self@.len(),
            Self::is_packet(self@),
    {
        proof {
            use_type_invariant(self);
        }
        (self.0[0] & 0x3Fu8) as usize + 1
    }

    /// Get the kind of packet.
    pub fn kind(&self) -> (r: PacketKind)
        ensures
            r == packet_kind(self@),
    {
        proof {
            use_type_invariant(self);
        }
        PacketKind::from(self)
    }

    /// Access the packet data.
    pub fn data(&self) -> (r: &[u8])
        ensures
            r@ == packet_payload(self@),
            r@.len() == payload_len(self@[0]),
    {
        proof {
            use_type_invariant(self);
        }
        vstd::slice::slice_subrange(self.0, 1, self.len())
    }
}

impl<'a, 'b> From<&'b Packet<'a>> for PacketKind {
    fn from(value: &'b Packet<'a>) -> (r: Self) {
        proof {
            use_type_invariant(value);
        }
        PacketKind::from(value.0[0])
    }
}

impl<'a, 'b> vstd::std_specs::convert::FromSpecImpl<&'b Packet<'a>> for PacketKind {
    open spec fn obeys_from_spec() -> bool {
        true
    }

    open spec fn from_spec(v: &'b Packet<'a>) -> PacketKind {
        packet_kind(v@)
    }
}

} // verus!
