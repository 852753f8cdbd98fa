//! An ARP packet with its Ethernet header, padded to the minimum Ethernet
//! frame length on the wire.

use vstd::prelude::*;

use crate::bytes::{
    be16, lemma_be16_round_trip, network_order, push_all, read4, read6, read_be16,
};
use crate::error::DecodeError;
use crate::protocol::{MacAddr, ETH_P_ARP};

verus! {

/// Length of the header and ARP payload without padding.
pub const ARP_FRAME_LEN: usize = 42;

/// Minimum Ethernet frame length; shorter frames are padded with zeros.
pub const MIN_FRAME_LEN: usize = 60;

/// ARP operation: request.
pub const ARP_REQUEST: u16 = 1;

/// ARP operation: reply.
pub const ARP_REPLY: u16 = 2;

/// An ARP packet with its Ethernet header. Multi-byte fields hold their
/// numeric value; on the wire they are in network byte order.
#[derive(Debug, Clone, Copy, PartialEq, Eq)]
pub struct RawArpFrame {
    pub destination_mac: MacAddr,
    pub source_mac: MacAddr,
    /// Ethertype of the payload: `ETH_P_ARP` for an ARP packet.
    pub ether_type: u16,
    /// 1 for Ethernet.
    pub hardware_type: u16,
    /// 0x0800 for IPv4.
    pub protocol_type: u16,
    /// 6 for MAC addresses.
    pub hw_addr_len: u8,
    /// 4 for IPv4 addresses.
    pub proto_addr_len: u8,
    /// `ARP_REQUEST` or `ARP_REPLY`.
    pub operation: u16,
    pub sender_hw_addr: MacAddr,
    pub sender_proto_addr: [u8; 4],
    pub target_hw_addr: MacAddr,
    pub target_proto_addr: [u8; 4],
}

impl RawArpFrame {
    /// The 42 bytes of the frame before padding: every field in declared
    /// order, multi-byte fields in network order.
    pub open spec fn spec_bytes(&self) -> Seq<u8> {
        self.destination_mac@ + self.source_mac@ + be16(self.ether_type) + be16(
            self.hardware_type,
        ) + be16(self.protocol_type) + seq![self.hw_addr_len] + seq![self.proto_addr_len]
            + be16(self.operation) + self.sender_hw_addr@ + self.sender_proto_addr@
            + self.target_hw_addr@ + self.target_proto_addr@
    }

    /// The frame carries ARP and names a request or a reply.
    pub open spec fn wf(&self) -> bool {
        &&& self.ether_type == ETH_P_ARP
        &&& (self.operation == ARP_REQUEST || self.operation == ARP_REPLY)
    }

    /// Whether the frame carries ARP and names a request or a reply.
    pub fn is_arp(&self) -> (r: bool)
        ensures
            r == self.wf(),
    {
        self.ether_type == ETH_P_ARP && (self.operation == ARP_REQUEST || self.operation
            == ARP_REPLY)
    }
}

/// Encodes `frame` into its 60 wire bytes: the 42 bytes of the frame, then
/// zeros.
pub fn encode_arp_frame(frame: &RawArpFrame) -> (r: Vec<u8>)
    ensures
        r@ == frame.spec_bytes() + Seq::new((MIN_FRAME_LEN - ARP_FRAME_LEN) as nat, |i: int| 0u8),
        r@.len() == MIN_FRAME_LEN,
{
    let mut out: Vec<u8> = Vec::new();
    push_all(&mut out, frame.destination_mac.as_slice());
    push_all(&mut out, frame.source_mac.as_slice());
    push_all(&mut out, network_order(frame.ether_type).as_slice());
    push_all(&mut out, network_order(frame.hardware_type).as_slice());
    push_all(&mut out, network_order(frame.protocol_type).as_slice());
    out.push(frame.hw_addr_len);
    out.push(frame.proto_addr_len);
    push_all(&mut out, network_order(frame.operation).as_slice());
    push_all(&mut out, frame.sender_hw_addr.as_slice());
    push_all(&mut out, frame.sender_proto_addr.as_slice());
    push_all(&mut out, frame.target_hw_addr.as_slice());
    push_all(&mut out, frame.target_proto_addr.as_slice());
    assert(out@ =~= frame.spec_bytes());
    while out.len() < MIN_FRAME_LEN
        invariant
            ARP_FRAME_LEN <= out@.len() <= MIN_FRAME_LEN,
            out@.subrange(0, ARP_FRAME_LEN as int) == frame.spec_bytes(),
            forall|i: int| ARP_FRAME_LEN <= i < out@.len() ==> out@[i] == 0u8,
        decreases MIN_FRAME_LEN - out@.len(),
    {
        out.push(0u8);
        assert(out@.subrange(0, ARP_FRAME_LEN as int) =~= frame.spec_bytes());
    }
    assert(out@ =~= frame.spec_bytes() + Seq::new(
        (MIN_FRAME_LEN - ARP_FRAME_LEN) as nat,
        |i: int| 0u8,
    ));
    out
}

/// Decodes a frame from the first 42 bytes of `bytes`; padding and any
/// bytes after the frame are ignored.
pub fn decode_arp_frame(bytes: &[u8]) -> (r: Result<RawArpFrame, DecodeError>)
    ensures
        r is Ok <==> bytes@.len() >= ARP_FRAME_LEN,
        r matches Ok(f) ==> f.spec_bytes() == bytes@.subrange(0, ARP_FRAME_LEN as int),
        r matches Err(e) ==> e == (DecodeError {
            needed: ARP_FRAME_LEN,
            available: bytes@.len() as usize,
        }),
{
    if bytes.len() < ARP_FRAME_LEN {
        return Err(DecodeError { needed: ARP_FRAME_LEN, available: bytes.len() });
    }
    let f = RawArpFrame {
        destination_mac: read6(bytes, 0),
        source_mac: read6(bytes, 6),
        ether_type: read_be16(bytes, 12),
        hardware_type: read_be16(bytes, 14),
        protocol_type: read_be16(bytes, 16),
        hw_addr_len: bytes[18],
        proto_addr_len: bytes[19],
        operation: read_be16(bytes, 20),
        sender_hw_addr: read6(bytes, 22),
        sender_proto_addr: read4(bytes, 28),
        target_hw_addr: read6(bytes, 32),
        target_proto_addr: read4(bytes, 38),
    };
    assert(f.spec_bytes() =~= bytes@.subrange(0, ARP_FRAME_LEN as int));
    Ok(f)
}

/// Encoding then decoding a frame recovers every field: a frame whose 42
/// bytes are the first 42 bytes of `f`'s encoding (what `decode_arp_frame`
/// promises of its result on that input) is `f` itself. The padding plays
/// no part.
pub proof fn lemma_arp_round_trip(f: RawArpFrame, d: RawArpFrame)
    requires
        d.spec_bytes() == (f.spec_bytes() + Seq::new(
            (MIN_FRAME_LEN - ARP_FRAME_LEN) as nat,
            |i: int| 0u8,
        )).subrange(0, ARP_FRAME_LEN as int),
    ensures
        d == f,
{
    let b = f.spec_bytes();
    let db = d.spec_bytes();
    assert((b + Seq::new((MIN_FRAME_LEN - ARP_FRAME_LEN) as nat, |i: int| 0u8)).subrange(
        0,
        ARP_FRAME_LEN as int,
    ) =~= b);
    assert(d.destination_mac@ =~= db.subrange(0, 6));
    assert(f.destination_mac@ =~= b.subrange(0, 6));
    assert(d.source_mac@ =~= db.subrange(6, 12));
    assert(f.source_mac@ =~= b.subrange(6, 12));
    assert(d.sender_hw_addr@ =~= db.subrange(22, 28));
    assert(f.sender_hw_addr@ =~= b.subrange(22, 28));
    assert(d.sender_proto_addr@ =~= db.subrange(28, 32));
    assert(f.sender_proto_addr@ =~= b.subrange(28, 32));
    assert(d.target_hw_addr@ =~= db.subrange(32, 38));
    assert(f.target_hw_addr@ =~= b.subrange(32, 38));
    assert(d.target_proto_addr@ =~= db.subrange(38, 42));
    assert(f.target_proto_addr@ =~= b.subrange(38, 42));
    lemma_be16_round_trip(d.ether_type);
    lemma_be16_round_trip(f.ether_type);
    lemma_be16_round_trip(d.hardware_type);
    lemma_be16_round_trip(f.hardware_type);
    lemma_be16_round_trip(d.protocol_type);
    lemma_be16_round_trip(f.protocol_type);
    lemma_be16_round_trip(d.operation);
    lemma_be16_round_trip(f.operation);
    assert(d.ether_type == f.ether_type) by {
        assert(db[12] == b[12] && db[13] == b[13]);
    }
    assert(d.hardware_type == f.hardware_type) by {
        assert(db[14] == b[14] && db[15] == b[15]);
    }
    assert(d.protocol_type == f.protocol_type) by {
        assert(db[16] == b[16] && db[17] == b[17]);
    }
    assert(d.operation == f.operation) by {
        assert(db[20] == b[20] && db[21] == b[21]);
    }
    assert(d.hw_addr_len == b[18]);
    assert(d.proto_addr_len == b[19]);
    assert(d.destination_mac =~= f.destination_mac);
    assert(d.source_mac =~= f.source_mac);
    assert(d.sender_hw_addr =~= f.sender_hw_addr);
    assert(d.sender_proto_addr =~= f.sender_proto_addr);
    assert(d.target_hw_addr =~= f.target_hw_addr);
    assert(d.target_proto_addr =~= f.target_proto_addr);
}

} // verus!
