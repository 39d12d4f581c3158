//! The Meshtastic packet header, its flags, the AES nonce built from it, and the
//! enumerations that Meshtastic messages carry.
use crate::cursor::Cursor;
use crate::endian::{lemma_u32_roundtrip, u32_from_le, u32_le_bytes};
use crate::proto::{
    lemma_field_roundtrip, bool_payload, bytes_payload, field_body, field_bytes, field_id, field_len, field_readable,
    field_type, option_u32_payload, slice_wire_len, tag_of, u32_payload, wire_bytes, wire_type,
    wire_type_code, wire_len, wire_payload, wire_read_len, FromWire,
    ReadWire, ToWire, Wire, WireType, WriteWire,
};
use crate::varint::{
    len_of, lemma_varint_bytes_len, lemma_varint_read_len, lemma_varint_roundtrip, varint_bytes, varint_read,
};
use vstd::prelude::*;

verus! {

/// The address of a node.
#[derive(Clone, Copy, PartialEq, Eq, Structural, Debug)]
pub struct NodeId(pub u32);

/// The address that stands for no node.
pub const NODE_NONE: u32 = 0;

/// The address that stands for every node.
pub const NODE_BROADCAST: u32 = 0xFFFF_FFFF;

impl NodeId {
    /// No node.
    pub fn none() -> (n: NodeId)
        ensures
            n == NodeId(NODE_NONE),
    {
        NodeId(NODE_NONE)
    }

    /// Every node.
    pub fn broadcast() -> (n: NodeId)
        ensures
            n == NodeId(NODE_BROADCAST),
    {
        NodeId(NODE_BROADCAST)
    }
}

/// The hexadecimal digit, in upper case, of a value below 16.
pub open spec fn hex_digit(d: u32) -> char {
    seq!['0', '1', '2', '3', '4', '5', '6', '7', '8', '9', 'A', 'B', 'C', 'D', 'E', 'F'][d as int]
}

/// The four bits of `v` that stand `i` hexadecimal digits from the most
/// significant one.
pub open spec fn nibble(v: u32, i: int) -> u32 {
    (v >> ((28 - 4 * i) as u32)) & 0xF
}

/// The text of a node address: `NONE` for no node, `EVERYONE` for every node,
/// and otherwise `!` and its eight hexadecimal digits, in upper case.
pub open spec fn node_id_text(n: NodeId) -> Seq<char> {
    if n.0 == NODE_NONE {
        seq!['N', 'O', 'N', 'E']
    } else if n.0 == NODE_BROADCAST {
        seq!['E', 'V', 'E', 'R', 'Y', 'O', 'N', 'E']
    } else {
        seq!['!'] + Seq::new(8, |i: int| hex_digit(nibble(n.0, i)))
    }
}

/// The upper-case hexadecimal digit of `d`, below 16, as text.
fn hex_text(d: u32) -> (t: &'static str)
    requires
        d < 16,
    ensures
        t@ == seq![hex_digit(d)],
{
    if d == 0 {
        proof { reveal_strlit("0"); }
        "0"
    } else if d == 1 {
        proof { reveal_strlit("1"); }
        "1"
    } else if d == 2 {
        proof { reveal_strlit("2"); }
        "2"
    } else if d == 3 {
        proof { reveal_strlit("3"); }
        "3"
    } else if d == 4 {
        proof { reveal_strlit("4"); }
        "4"
    } else if d == 5 {
        proof { reveal_strlit("5"); }
        "5"
    } else if d == 6 {
        proof { reveal_strlit("6"); }
        "6"
    } else if d == 7 {
        proof { reveal_strlit("7"); }
        "7"
    } else if d == 8 {
        proof { reveal_strlit("8"); }
        "8"
    } else if d == 9 {
        proof { reveal_strlit("9"); }
        "9"
    } else if d == 10 {
        proof { reveal_strlit("A"); }
        "A"
    } else if d == 11 {
        proof { reveal_strlit("B"); }
        "B"
    } else if d == 12 {
        proof { reveal_strlit("C"); }
        "C"
    } else if d == 13 {
        proof { reveal_strlit("D"); }
        "D"
    } else if d == 14 {
        proof { reveal_strlit("E"); }
        "E"
    } else {
        proof { reveal_strlit("F"); }
        "F"
    }
}

impl NodeId {
    /// The address as text: `NONE`, `EVERYONE`, or `!` and eight upper-case
    /// hexadecimal digits.
    pub fn to_text(&self) -> (t: String)
        ensures
            t@ == node_id_text(*self),
    {
        if self.0 == NODE_NONE {
            proof { reveal_strlit("NONE"); }
            String::from_str("NONE")
        } else if self.0 == NODE_BROADCAST {
            proof { reveal_strlit("EVERYONE"); }
            String::from_str("EVERYONE")
        } else {
            proof { reveal_strlit("!"); }
            let mut t = String::from_str("!");
            let v = self.0;
            let mut i: u32 = 0;
            while i < 8
                invariant
                    i <= 8,
                    v == self.0,
                    t@ == seq!['!'] + Seq::new(i as nat, |j: int| hex_digit(nibble(v, j))),
                decreases 8 - i,
            {
                let shift: u32 = 28 - 4 * i;
                let d = (v >> shift) & 0xF;
                assert(d < 16) by (bit_vector)
                    requires
                        d == (v >> shift) & 0xF,
                ;
                assert(d == nibble(v, i as int));
                t.append(hex_text(d));
                i = i + 1;
                assert(t@ =~= seq!['!'] + Seq::new(i as nat, |j: int| hex_digit(nibble(v, j))));
            }
            t
        }
    }
}

impl Default for NodeId {
    fn default() -> (r: Self)
        ensures
            r == NodeId(0),
    {
        NodeId(0)
    }
}

/// The hop and routing flags of a packet, packed in one byte as the Meshtastic
/// radio header carries them: hop limit in bits 0 to 2 (mask 0x07), want-ack in
/// bit 3 (0x08), via-MQTT in bit 4 (0x10), hop start in bits 5 to 7 (0xE0).
/// The four fields do not overlap and together fill the byte.
#[derive(Clone, Copy, PartialEq, Eq, Structural, Debug)]
pub struct PacketFlags(pub u8);

/// The flags byte with the bits of `mask` (shifted by `lsb`) replaced by the
/// low bits of `value`.
pub open spec fn with_bits(byte: u8, lsb: u8, mask: u8, value: u8) -> u8 {
    (byte & !(mask << lsb)) | ((value & mask) << lsb)
}

impl PacketFlags {
    /// Remaining hops, bits 0 to 2.
    pub fn get_hop_limit(&self) -> (v: u8)
        ensures
            v == self.0 & 0x07,
    {
        self.0 & 0x07
    }

    /// Sets the remaining hops to the low three bits of `value`.
    pub fn set_hop_limit(&mut self, value: u8)
        ensures
            final(self).0 == with_bits(old(self).0, 0, 0x07, value),
    {
        self.0 = (self.0 & !(0x07u8 << 0u8)) | ((value & 0x07) << 0u8);
    }

    /// Whether an acknowledgement is wanted, bit 3.
    pub fn get_want_ack(&self) -> (v: u8)
        ensures
            v == (self.0 >> 3u8) & 0x01,
    {
        (self.0 >> 3) & 0x01
    }

    /// Sets the want-ack bit to the low bit of `value`.
    pub fn set_want_ack(&mut self, value: u8)
        ensures
            final(self).0 == with_bits(old(self).0, 3, 0x01, value),
    {
        self.0 = (self.0 & !(0x01u8 << 3u8)) | ((value & 0x01) << 3u8);
    }

    /// Whether the packet came through MQTT, bit 4.
    pub fn get_via_mqtt(&self) -> (v: u8)
        ensures
            v == (self.0 >> 4u8) & 0x01,
    {
        (self.0 >> 4) & 0x01
    }

    /// Sets the via-MQTT bit to the low bit of `value`.
    pub fn set_via_mqtt(&mut self, value: u8)
        ensures
            final(self).0 == with_bits(old(self).0, 4, 0x01, value),
    {
        self.0 = (self.0 & !(0x01u8 << 4u8)) | ((value & 0x01) << 4u8);
    }

    /// The hop limit the packet started with, bits 5 to 7.
    pub fn get_hop_start(&self) -> (v: u8)
        ensures
            v == (self.0 >> 5u8) & 0x07,
    {
        (self.0 >> 5) & 0x07
    }

    /// Sets the starting hop limit to the low three bits of `value`.
    pub fn set_hop_start(&mut self, value: u8)
        ensures
            final(self).0 == with_bits(old(self).0, 5, 0x07, value),
    {
        self.0 = (self.0 & !(0x07u8 << 5u8)) | ((value & 0x07) << 5u8);
    }

    /// Flags with the given fields; each field keeps only the bits it has room for.
    pub fn new(hop_limit: u8, want_ack: bool, via_mqtt: bool, hop_start: u8) -> (f: Self)
        ensures
            f.0 == (hop_limit & 0x07) | ((if want_ack { 1u8 } else { 0u8 }) << 3u8) | ((if via_mqtt {
                1u8
            } else {
                0u8
            }) << 4u8) | ((hop_start & 0x07) << 5u8),
    {
        let mut this = Self(0);
        this.set_hop_limit(hop_limit);
        this.set_want_ack(if want_ack { 1 } else { 0 });
        this.set_via_mqtt(if via_mqtt { 1 } else { 0 });
        this.set_hop_start(hop_start);
        let a: u8 = if want_ack { 1 } else { 0 };
        let m: u8 = if via_mqtt { 1 } else { 0 };
        assert(with_bits(with_bits(with_bits(with_bits(0, 0, 0x07, hop_limit), 3, 0x01, a), 4, 0x01, m), 5, 0x07, hop_start)
            == (hop_limit & 0x07) | (a << 3u8) | (m << 4u8) | ((hop_start & 0x07) << 5u8)) by (bit_vector)
            requires a <= 1, m <= 1;
        this
    }
}

/// Each field of flags made by `PacketFlags::new` reads back as it was given,
/// cut to the bits it has room for.
pub proof fn lemma_packet_flags_fields(hop_limit: u8, want_ack: bool, via_mqtt: bool, hop_start: u8)
    ensures
        ({
            let a: u8 = if want_ack { 1 } else { 0 };
            let m: u8 = if via_mqtt { 1 } else { 0 };
            let b = (hop_limit & 0x07) | (a << 3u8) | (m << 4u8) | ((hop_start & 0x07) << 5u8);
            &&& b & 0x07 == hop_limit & 0x07
            &&& (b >> 3u8) & 0x01 == a
            &&& (b >> 4u8) & 0x01 == m
            &&& (b >> 5u8) & 0x07 == hop_start & 0x07
        }),
{
    let a: u8 = if want_ack { 1 } else { 0 };
    let m: u8 = if via_mqtt { 1 } else { 0 };
    assert(a <= 1 && m <= 1 ==> ({
        let b = (hop_limit & 0x07) | (a << 3u8) | (m << 4u8) | ((hop_start & 0x07) << 5u8);
        &&& b & 0x07 == hop_limit & 0x07
        &&& (b >> 3u8) & 0x01 == a
        &&& (b >> 4u8) & 0x01 == m
        &&& (b >> 5u8) & 0x07 == hop_start & 0x07
    })) by (bit_vector);
}

/// The header that starts every Meshtastic radio packet.
#[derive(Clone, Copy, PartialEq, Eq, Structural, Debug)]
pub struct MestasticHeader {
    pub to: NodeId,
    pub from: NodeId,
    pub packet_id: u32,
    pub flags: PacketFlags,
    pub channel: u8,
    pub next_hop: u8,
    pub relay_node: u8,
}

/// The sixteen bytes of a header: three little-endian words, then four bytes.
pub open spec fn header_bytes(h: MestasticHeader) -> Seq<u8> {
    u32_le_bytes(h.to.0) + u32_le_bytes(h.from.0) + u32_le_bytes(h.packet_id) + seq![
        h.flags.0,
        h.channel,
        h.next_hop,
        h.relay_node,
    ]
}

/// The header whose bytes start `s`.
pub open spec fn header_from_bytes(s: Seq<u8>) -> MestasticHeader {
    MestasticHeader {
        to: NodeId(u32_from_le(s)),
        from: NodeId(u32_from_le(s.skip(4))),
        packet_id: u32_from_le(s.skip(8)),
        flags: PacketFlags(s[12]),
        channel: s[13],
        next_hop: s[14],
        relay_node: s[15],
    }
}

impl MestasticHeader {
    /// Reads a header; the bytes stay in the buffer.
    /// Panics when fewer than sixteen bytes remain.
    pub fn read(cursor: &mut Cursor<&mut [u8]>) -> (h: Self)
        requires
            16 <= old(cursor)@.len(),
        ensures
            h == header_from_bytes(old(cursor)@),
            final(cursor)@ == old(cursor)@.skip(16),
            final(old(cursor).buffer)@ == old(cursor)@.take(16) + final(final(cursor).buffer)@,
    {
        let ghost s = cursor@;
        let to = NodeId(cursor.read_u32_le());
        let from = NodeId(cursor.read_u32_le());
        let packet_id = cursor.read_u32_le();
        let flags = PacketFlags(cursor.read_u8());
        let channel = cursor.read_u8();
        let next_hop = cursor.read_u8();
        let relay_node = cursor.read_u8();
        proof {
            assert(s.skip(4).skip(4) =~= s.skip(8));
            assert(s.skip(8).skip(4) =~= s.skip(12));
            assert(s.skip(12).skip(1) =~= s.skip(13));
            assert(s.skip(13).skip(1) =~= s.skip(14));
            assert(s.skip(14).skip(1) =~= s.skip(15));
            assert(s.skip(15).skip(1) =~= s.skip(16));
            let t = final(cursor.buffer)@;
            assert(s.take(4) + (s.skip(4).take(4) + (s.skip(8).take(4) + (s.skip(12).take(1) + (
            s.skip(13).take(1) + (s.skip(14).take(1) + (s.skip(15).take(1) + t)))))) =~= s.take(
                16,
            ) + t);
        }
        Self { to, from, packet_id, flags, channel, next_hop, relay_node }
    }

    /// Writes the header's sixteen bytes.
    /// Panics when fewer than sixteen bytes of room remain.
    pub fn write(&self, cursor: &mut Cursor<&mut [u8]>)
        requires
            16 <= old(cursor)@.len(),
        ensures
            final(cursor)@ == old(cursor)@.skip(16),
            final(old(cursor).buffer)@ == header_bytes(*self) + final(final(cursor).buffer)@,
    {
        let ghost s = cursor@;
        cursor.write_u32_le(self.to.0);
        cursor.write_u32_le(self.from.0);
        cursor.write_u32_le(self.packet_id);
        cursor.write_u8(self.flags.0);
        cursor.write_u8(self.channel);
        cursor.write_u8(self.next_hop);
        cursor.write_u8(self.relay_node);
        proof {
            assert(s.skip(4).skip(4) =~= s.skip(8));
            assert(s.skip(8).skip(4) =~= s.skip(12));
            assert(s.skip(12).skip(1) =~= s.skip(13));
            assert(s.skip(13).skip(1) =~= s.skip(14));
            assert(s.skip(14).skip(1) =~= s.skip(15));
            assert(s.skip(15).skip(1) =~= s.skip(16));
            let t = final(cursor.buffer)@;
            assert(u32_le_bytes(self.to.0) + (u32_le_bytes(self.from.0) + (u32_le_bytes(
                self.packet_id,
            ) + (seq![self.flags.0] + (seq![self.channel] + (seq![self.next_hop] + (seq![
                self.relay_node,
            ] + t)))))) =~= header_bytes(*self) + t);
        }
    }

    /// Whether the packet is addressed to every node.
    pub fn is_broadcast(&self) -> (r: bool)
        ensures
            r == (self.to == NodeId(NODE_BROADCAST)),
    {
        self.to == NodeId::broadcast()
    }
}

/// Reading back a header that `MestasticHeader::write` wrote gives the same
/// header, whatever bytes follow it.
pub proof fn lemma_header_roundtrip(h: MestasticHeader, rest: Seq<u8>)
    ensures
        header_bytes(h).len() == 16,
        header_from_bytes(header_bytes(h) + rest) == h,
{
    let s = header_bytes(h) + rest;
    lemma_u32_roundtrip(h.to.0, s.skip(4));
    lemma_u32_roundtrip(h.from.0, s.skip(8));
    lemma_u32_roundtrip(h.packet_id, s.skip(12));
    assert(s =~= u32_le_bytes(h.to.0) + s.skip(4));
    assert(s.skip(4) =~= u32_le_bytes(h.from.0) + s.skip(8));
    assert(s.skip(8) =~= u32_le_bytes(h.packet_id) + s.skip(12));
}

/// The nonce of a packet's AES encryption: packet id, an extra word, the
/// sender, and padding, each a little-endian word.
#[derive(Clone, Copy, PartialEq, Eq, Structural, Debug)]
pub struct Nonce {
    pub packet_id: u32,
    pub extra: u32,
    pub from: NodeId,
    pub pad: u32,
}

/// The sixteen bytes of a nonce.
pub open spec fn nonce_bytes(n: Nonce) -> Seq<u8> {
    u32_le_bytes(n.packet_id) + u32_le_bytes(n.extra) + u32_le_bytes(n.from.0) + u32_le_bytes(
        n.pad,
    )
}

impl Nonce {
    /// The first thirteen bytes of the nonce, as AES-CCM takes them.
    pub fn as_ccm_bytes(&self) -> (b: [u8; 13])
        ensures
            b@ == nonce_bytes(*self).take(13),
    {
        let all = self.as_ctr_bytes();
        let b = [
            all[0],
            all[1],
            all[2],
            all[3],
            all[4],
            all[5],
            all[6],
            all[7],
            all[8],
            all[9],
            all[10],
            all[11],
            all[12],
        ];
        assert(b@ =~= nonce_bytes(*self).take(13));
        b
    }

    /// The sixteen bytes of the nonce, as AES-CTR takes them for its counter block.
    pub fn as_ctr_bytes(&self) -> (b: [u8; 16])
        ensures
            b@ == nonce_bytes(*self),
    {
        let p = self.packet_id;
        let e = self.extra;
        let f = self.from.0;
        let d = self.pad;
        let b = [
            p as u8,
            (p >> 8) as u8,
            (p >> 16) as u8,
            (p >> 24) as u8,
            e as u8,
            (e >> 8) as u8,
            (e >> 16) as u8,
            (e >> 24) as u8,
            f as u8,
            (f >> 8) as u8,
            (f >> 16) as u8,
            (f >> 24) as u8,
            d as u8,
            (d >> 8) as u8,
            (d >> 16) as u8,
            (d >> 24) as u8,
        ];
        assert(b@ =~= nonce_bytes(*self));
        b
    }
}

impl<'a> FromWire<'a> for NodeId {
    open spec fn accepts(wire: Wire<'a>) -> bool {
        wire is Fixed32
    }

    open spec fn decodes_to(wire: Wire<'a>, v: NodeId) -> bool {
        wire == Wire::Fixed32(v.0)
    }

    fn from_wire(wire: Wire<'a>, field: &'static str) -> (r: NodeId) {
        Self(wire.expect_fixed32(field))
    }
}

/// The payload of a node address: its four bytes, none for no node.
pub open spec fn node_id_payload<'a>(v: NodeId) -> Option<Wire<'a>> {
    if v == NodeId(NODE_NONE) {
        None
    } else {
        Some(Wire::Fixed32(v.0))
    }
}

impl<'a> ToWire<'a> for NodeId {
    open spec fn is_payload(&self, r: Option<Wire<'a>>) -> bool {
        r == node_id_payload(*self)
    }

    open spec fn payload_room(&self) -> nat {
        0
    }

    open spec fn payload_fits(&self) -> bool {
        true
    }

    open spec fn encoded_len(&self) -> nat {
        if *self == NodeId(NODE_NONE) {
            0
        } else {
            4
        }
    }

    fn to_wire(&self, cursor: &mut Cursor<&'a mut [u8]>) -> (r: Option<Wire<'a>>) {
        if *self == NodeId::none() {
            None
        } else {
            Some(Wire::Fixed32(self.0))
        }
    }

    fn wire_len(&self) -> (n: usize) {
        if *self == NodeId::none() {
            0
        } else {
            4
        }
    }
}

/// The application a packet payload belongs to.
#[derive(Clone, Copy, PartialEq, Eq, Structural, Debug)]
pub enum PortNum {
    UnknownApp,
    TextMessageApp,
    RemoteHardwareApp,
    PositionApp,
    NodeInfoApp,
    RoutingApp,
    AdminApp,
    TextMessageCompressedApp,
    WaypointApp,
    AudioApp,
    DetectionSensorApp,
    AlertApp,
    KeyVerificationApp,
    ReplyApp,
    IpTunnelApp,
    PaxCounterApp,
    StoreForwardPlusPlusApp,
    NodeStatusApp,
    SerialApp,
    StoreForwardApp,
    RangeTestApp,
    TelemetryApp,
    ZpsApp,
    SimulatorApp,
    TracerouteApp,
    NeighborInfoApp,
    AtakPlugin,
    MapReportApp,
    PowerStressApp,
    ReticulumTunnelApp,
    CayenneApp,
    PrivateApp,
    AtakForwarder,
    Max,
}

/// The number that stands for `v` on the wire.
pub open spec fn port_num_value(v: PortNum) -> u32 {
    match v {
        PortNum::UnknownApp => 0,
        PortNum::TextMessageApp => 1,
        PortNum::RemoteHardwareApp => 2,
        PortNum::PositionApp => 3,
        PortNum::NodeInfoApp => 4,
        PortNum::RoutingApp => 5,
        PortNum::AdminApp => 6,
        PortNum::TextMessageCompressedApp => 7,
        PortNum::WaypointApp => 8,
        PortNum::AudioApp => 9,
        PortNum::DetectionSensorApp => 10,
        PortNum::AlertApp => 11,
        PortNum::KeyVerificationApp => 12,
        PortNum::ReplyApp => 32,
        PortNum::IpTunnelApp => 33,
        PortNum::PaxCounterApp => 34,
        PortNum::StoreForwardPlusPlusApp => 35,
        PortNum::NodeStatusApp => 36,
        PortNum::SerialApp => 64,
        PortNum::StoreForwardApp => 65,
        PortNum::RangeTestApp => 66,
        PortNum::TelemetryApp => 67,
        PortNum::ZpsApp => 68,
        PortNum::SimulatorApp => 69,
        PortNum::TracerouteApp => 70,
        PortNum::NeighborInfoApp => 71,
        PortNum::AtakPlugin => 72,
        PortNum::MapReportApp => 73,
        PortNum::PowerStressApp => 74,
        PortNum::ReticulumTunnelApp => 76,
        PortNum::CayenneApp => 77,
        PortNum::PrivateApp => 256,
        PortNum::AtakForwarder => 257,
        PortNum::Max => 511,
    }
}

/// The value numbered `n`, if any.
pub open spec fn port_num_from(n: u32) -> Option<PortNum> {
    if exists|v: PortNum| port_num_value(v) == n {
        Some(choose|v: PortNum| port_num_value(v) == n)
    } else {
        None
    }
}

impl Default for PortNum {
    fn default() -> (r: Self)
        ensures
            r == PortNum::UnknownApp,
    {
        PortNum::UnknownApp
    }
}

impl PortNum {
    /// The number that stands for this value on the wire.
    pub fn to_u32(self) -> (n: u32)
        ensures
            n == port_num_value(self),
    {
        match self {
            PortNum::UnknownApp => 0,
            PortNum::TextMessageApp => 1,
            PortNum::RemoteHardwareApp => 2,
            PortNum::PositionApp => 3,
            PortNum::NodeInfoApp => 4,
            PortNum::RoutingApp => 5,
            PortNum::AdminApp => 6,
            PortNum::TextMessageCompressedApp => 7,
            PortNum::WaypointApp => 8,
            PortNum::AudioApp => 9,
            PortNum::DetectionSensorApp => 10,
            PortNum::AlertApp => 11,
            PortNum::KeyVerificationApp => 12,
            PortNum::ReplyApp => 32,
            PortNum::IpTunnelApp => 33,
            PortNum::PaxCounterApp => 34,
            PortNum::StoreForwardPlusPlusApp => 35,
            PortNum::NodeStatusApp => 36,
            PortNum::SerialApp => 64,
            PortNum::StoreForwardApp => 65,
            PortNum::RangeTestApp => 66,
            PortNum::TelemetryApp => 67,
            PortNum::ZpsApp => 68,
            PortNum::SimulatorApp => 69,
            PortNum::TracerouteApp => 70,
            PortNum::NeighborInfoApp => 71,
            PortNum::AtakPlugin => 72,
            PortNum::MapReportApp => 73,
            PortNum::PowerStressApp => 74,
            PortNum::ReticulumTunnelApp => 76,
            PortNum::CayenneApp => 77,
            PortNum::PrivateApp => 256,
            PortNum::AtakForwarder => 257,
            PortNum::Max => 511,
        }
    }

    /// The value numbered `n`, if any.
    pub fn from_u32(n: u32) -> (r: Option<PortNum>)
        ensures
            r == port_num_from(n),
    {
        let r = match n {
            0 => Some(PortNum::UnknownApp),
            1 => Some(PortNum::TextMessageApp),
            2 => Some(PortNum::RemoteHardwareApp),
            3 => Some(PortNum::PositionApp),
            4 => Some(PortNum::NodeInfoApp),
            5 => Some(PortNum::RoutingApp),
            6 => Some(PortNum::AdminApp),
            7 => Some(PortNum::TextMessageCompressedApp),
            8 => Some(PortNum::WaypointApp),
            9 => Some(PortNum::AudioApp),
            10 => Some(PortNum::DetectionSensorApp),
            11 => Some(PortNum::AlertApp),
            12 => Some(PortNum::KeyVerificationApp),
            32 => Some(PortNum::ReplyApp),
            33 => Some(PortNum::IpTunnelApp),
            34 => Some(PortNum::PaxCounterApp),
            35 => Some(PortNum::StoreForwardPlusPlusApp),
            36 => Some(PortNum::NodeStatusApp),
            64 => Some(PortNum::SerialApp),
            65 => Some(PortNum::StoreForwardApp),
            66 => Some(PortNum::RangeTestApp),
            67 => Some(PortNum::TelemetryApp),
            68 => Some(PortNum::ZpsApp),
            69 => Some(PortNum::SimulatorApp),
            70 => Some(PortNum::TracerouteApp),
            71 => Some(PortNum::NeighborInfoApp),
            72 => Some(PortNum::AtakPlugin),
            73 => Some(PortNum::MapReportApp),
            74 => Some(PortNum::PowerStressApp),
            76 => Some(PortNum::ReticulumTunnelApp),
            77 => Some(PortNum::CayenneApp),
            256 => Some(PortNum::PrivateApp),
            257 => Some(PortNum::AtakForwarder),
            511 => Some(PortNum::Max),
            _ => None,
        };
        proof {
            match r {
                Some(x) => {
                    assert(port_num_value(x) == n);
                    let w = choose|v: PortNum| port_num_value(v) == n;
                    lemma_port_num_injective(w, x);
                },
                None => {
                    assert(forall|v: PortNum| port_num_value(v) != n);
                },
            }
        }
        r
    }
}

/// The kind of board a node runs on.
#[derive(Clone, Copy, PartialEq, Eq, Structural, Debug)]
#[allow(non_camel_case_types)]
pub enum HardwareModel {
    Unset,
    TloraV2,
    TloraV1,
    TloraV211p6,
    TBeam,
    HeltecV20,
    TBeamV0p7,
    TEcho,
    TloraV11p3,
    RAK4631,
    HeltecV21,
    HeltecV1,
    LilygoTBeamS3Core,
    RAK11200,
    NanoG1,
    TloraV211p8,
    TloraT3S3,
    NanoG1Explorer,
    NanoG2Ultra,
    LoraType,
    WIPHONE,
    WioWm1110,
    RAK2560,
    HeltecHru3601,
    HeltecWirelessBridge,
    StationG1,
    RAK11310,
    SenseloraRp2040,
    SenseloraS3,
    CANARYONE,
    Rp2040Lora,
    StationG2,
    LoraRelayV1,
    TEchoPlus,
    PPR,
    GenieBlocks,
    Nrf52Unknown,
    Portduino,
    AndroidSim,
    DiyV1,
    Nrf52840Pca10059,
    DrDev,
    M5STACK,
    HeltecV3,
    HeltecWslV3,
    Betafpv2400Tx,
    Betafpv900NanoTx,
    RpiPico,
    HeltecWirelessTracker,
    HeltecWirelessPaper,
    TDeck,
    TWatchS3,
    PicomputerS3,
    HeltecHt62,
    EbyteEsp32S3,
    Esp32S3Pico,
    Chatter2,
    HeltecWirelessPaperV10,
    HeltecWirelessTrackerV10,
    UnPhone,
    TdLorac,
    CdebyteEoraS3,
    TwcMeshV4,
    Nrf52PromicroDiy,
    Radiomaster900BanditNano,
    HeltecCapsuleSensorV3,
    HeltecVisionMasterT190,
    HeltecVisionMasterE213,
    HeltecVisionMasterE290,
    HeltecMeshNodeT114,
    SensecapIndicator,
    TrackerT1000E,
    RAK3172,
    WioE5,
    Radiomaster900Bandit,
    ME25LS01_4Y10TD,
    Rp2040FeatherRfm95,
    M5stackCorebasic,
    M5stackCore2,
    RpiPico2,
    M5stackCores3,
    SeeedXiaoS3,
    MS24SF1,
    TloraC6,
    WismeshTap,
    ROUTASTIC,
    MeshTab,
    MESHLINK,
    XiaoNrf52Kit,
    ThinknodeM1,
    ThinknodeM2,
    TEthElite,
    HeltecSensorHub,
    MuziBase,
    HeltecMeshPocket,
    SeeedSolarNode,
    NomadstarMeteorPro,
    CROWPANEL,
    Link32,
    SeeedWioTrackerL1,
    SeeedWioTrackerL1Eink,
    MuziR1Neo,
    TDeckPro,
    TLoraPager,
    M5stackReserved,
    WismeshTag,
    RAK3312,
    ThinknodeM5,
    HeltecMeshSolar,
    TEchoLite,
    HeltecV4,
    M5stackC6l,
    M5stackCardputerAdv,
    HeltecWirelessTrackerV2,
    TWatchUltra,
    ThinknodeM3,
    WisMeshTapV2,
    Rak3401,
    Rak6421,
    ThinknodeM4,
    ThinknodeM6,
    Meshstick1262,
    TBeam1Watt,
    T5S3EpaperPro,
    TBeamBpf,
    MiniEpaperS3,
    TdisplayS3Pro,
    PrivateHw,
}

/// The number that stands for `v` on the wire.
pub open spec fn hardware_model_value(v: HardwareModel) -> u32 {
    match v {
        HardwareModel::Unset => 0,
        HardwareModel::TloraV2 => 1,
        HardwareModel::TloraV1 => 2,
        HardwareModel::TloraV211p6 => 3,
        HardwareModel::TBeam => 4,
        HardwareModel::HeltecV20 => 5,
        HardwareModel::TBeamV0p7 => 6,
        HardwareModel::TEcho => 7,
        HardwareModel::TloraV11p3 => 8,
        HardwareModel::RAK4631 => 9,
        HardwareModel::HeltecV21 => 10,
        HardwareModel::HeltecV1 => 11,
        HardwareModel::LilygoTBeamS3Core => 12,
        HardwareModel::RAK11200 => 13,
        HardwareModel::NanoG1 => 14,
        HardwareModel::TloraV211p8 => 15,
        HardwareModel::TloraT3S3 => 16,
        HardwareModel::NanoG1Explorer => 17,
        HardwareModel::NanoG2Ultra => 18,
        HardwareModel::LoraType => 19,
        HardwareModel::WIPHONE => 20,
        HardwareModel::WioWm1110 => 21,
        HardwareModel::RAK2560 => 22,
        HardwareModel::HeltecHru3601 => 23,
        HardwareModel::HeltecWirelessBridge => 24,
        HardwareModel::StationG1 => 25,
        HardwareModel::RAK11310 => 26,
        HardwareModel::SenseloraRp2040 => 27,
        HardwareModel::SenseloraS3 => 28,
        HardwareModel::CANARYONE => 29,
        HardwareModel::Rp2040Lora => 30,
        HardwareModel::StationG2 => 31,
        HardwareModel::LoraRelayV1 => 32,
        HardwareModel::TEchoPlus => 33,
        HardwareModel::PPR => 34,
        HardwareModel::GenieBlocks => 35,
        HardwareModel::Nrf52Unknown => 36,
        HardwareModel::Portduino => 37,
        HardwareModel::AndroidSim => 38,
        HardwareModel::DiyV1 => 39,
        HardwareModel::Nrf52840Pca10059 => 40,
        HardwareModel::DrDev => 41,
        HardwareModel::M5STACK => 42,
        HardwareModel::HeltecV3 => 43,
        HardwareModel::HeltecWslV3 => 44,
        HardwareModel::Betafpv2400Tx => 45,
        HardwareModel::Betafpv900NanoTx => 46,
        HardwareModel::RpiPico => 47,
        HardwareModel::HeltecWirelessTracker => 48,
        HardwareModel::HeltecWirelessPaper => 49,
        HardwareModel::TDeck => 50,
        HardwareModel::TWatchS3 => 51,
        HardwareModel::PicomputerS3 => 52,
        HardwareModel::HeltecHt62 => 53,
        HardwareModel::EbyteEsp32S3 => 54,
        HardwareModel::Esp32S3Pico => 55,
        HardwareModel::Chatter2 => 56,
        HardwareModel::HeltecWirelessPaperV10 => 57,
        HardwareModel::HeltecWirelessTrackerV10 => 58,
        HardwareModel::UnPhone => 59,
        HardwareModel::TdLorac => 60,
        HardwareModel::CdebyteEoraS3 => 61,
        HardwareModel::TwcMeshV4 => 62,
        HardwareModel::Nrf52PromicroDiy => 63,
        HardwareModel::Radiomaster900BanditNano => 64,
        HardwareModel::HeltecCapsuleSensorV3 => 65,
        HardwareModel::HeltecVisionMasterT190 => 66,
        HardwareModel::HeltecVisionMasterE213 => 67,
        HardwareModel::HeltecVisionMasterE290 => 68,
        HardwareModel::HeltecMeshNodeT114 => 69,
        HardwareModel::SensecapIndicator => 70,
        HardwareModel::TrackerT1000E => 71,
        HardwareModel::RAK3172 => 72,
        HardwareModel::WioE5 => 73,
        HardwareModel::Radiomaster900Bandit => 74,
        HardwareModel::ME25LS01_4Y10TD => 75,
        HardwareModel::Rp2040FeatherRfm95 => 76,
        HardwareModel::M5stackCorebasic => 77,
        HardwareModel::M5stackCore2 => 78,
        HardwareModel::RpiPico2 => 79,
        HardwareModel::M5stackCores3 => 80,
        HardwareModel::SeeedXiaoS3 => 81,
        HardwareModel::MS24SF1 => 82,
        HardwareModel::TloraC6 => 83,
        HardwareModel::WismeshTap => 84,
        HardwareModel::ROUTASTIC => 85,
        HardwareModel::MeshTab => 86,
        HardwareModel::MESHLINK => 87,
        HardwareModel::XiaoNrf52Kit => 88,
        HardwareModel::ThinknodeM1 => 89,
        HardwareModel::ThinknodeM2 => 90,
        HardwareModel::TEthElite => 91,
        HardwareModel::HeltecSensorHub => 92,
        HardwareModel::MuziBase => 93,
        HardwareModel::HeltecMeshPocket => 94,
        HardwareModel::SeeedSolarNode => 95,
        HardwareModel::NomadstarMeteorPro => 96,
        HardwareModel::CROWPANEL => 97,
        HardwareModel::Link32 => 98,
        HardwareModel::SeeedWioTrackerL1 => 99,
        HardwareModel::SeeedWioTrackerL1Eink => 100,
        HardwareModel::MuziR1Neo => 101,
        HardwareModel::TDeckPro => 102,
        HardwareModel::TLoraPager => 103,
        HardwareModel::M5stackReserved => 104,
        HardwareModel::WismeshTag => 105,
        HardwareModel::RAK3312 => 106,
        HardwareModel::ThinknodeM5 => 107,
        HardwareModel::HeltecMeshSolar => 108,
        HardwareModel::TEchoLite => 109,
        HardwareModel::HeltecV4 => 110,
        HardwareModel::M5stackC6l => 111,
        HardwareModel::M5stackCardputerAdv => 112,
        HardwareModel::HeltecWirelessTrackerV2 => 113,
        HardwareModel::TWatchUltra => 114,
        HardwareModel::ThinknodeM3 => 115,
        HardwareModel::WisMeshTapV2 => 116,
        HardwareModel::Rak3401 => 117,
        HardwareModel::Rak6421 => 118,
        HardwareModel::ThinknodeM4 => 119,
        HardwareModel::ThinknodeM6 => 120,
        HardwareModel::Meshstick1262 => 121,
        HardwareModel::TBeam1Watt => 122,
        HardwareModel::T5S3EpaperPro => 123,
        HardwareModel::TBeamBpf => 124,
        HardwareModel::MiniEpaperS3 => 125,
        HardwareModel::TdisplayS3Pro => 126,
        HardwareModel::PrivateHw => 255,
    }
}

/// The value numbered `n`, if any.
pub open spec fn hardware_model_from(n: u32) -> Option<HardwareModel> {
    if exists|v: HardwareModel| hardware_model_value(v) == n {
        Some(choose|v: HardwareModel| hardware_model_value(v) == n)
    } else {
        None
    }
}

impl Default for HardwareModel {
    fn default() -> (r: Self)
        ensures
            r == HardwareModel::Unset,
    {
        HardwareModel::Unset
    }
}

impl HardwareModel {
    /// The number that stands for this value on the wire.
    pub fn to_u32(self) -> (n: u32)
        ensures
            n == hardware_model_value(self),
    {
        match self {
            HardwareModel::Unset => 0,
            HardwareModel::TloraV2 => 1,
            HardwareModel::TloraV1 => 2,
            HardwareModel::TloraV211p6 => 3,
            HardwareModel::TBeam => 4,
            HardwareModel::HeltecV20 => 5,
            HardwareModel::TBeamV0p7 => 6,
            HardwareModel::TEcho => 7,
            HardwareModel::TloraV11p3 => 8,
            HardwareModel::RAK4631 => 9,
            HardwareModel::HeltecV21 => 10,
            HardwareModel::HeltecV1 => 11,
            HardwareModel::LilygoTBeamS3Core => 12,
            HardwareModel::RAK11200 => 13,
            HardwareModel::NanoG1 => 14,
            HardwareModel::TloraV211p8 => 15,
            HardwareModel::TloraT3S3 => 16,
            HardwareModel::NanoG1Explorer => 17,
            HardwareModel::NanoG2Ultra => 18,
            HardwareModel::LoraType => 19,
            HardwareModel::WIPHONE => 20,
            HardwareModel::WioWm1110 => 21,
            HardwareModel::RAK2560 => 22,
            HardwareModel::HeltecHru3601 => 23,
            HardwareModel::HeltecWirelessBridge => 24,
            HardwareModel::StationG1 => 25,
            HardwareModel::RAK11310 => 26,
            HardwareModel::SenseloraRp2040 => 27,
            HardwareModel::SenseloraS3 => 28,
            HardwareModel::CANARYONE => 29,
            HardwareModel::Rp2040Lora => 30,
            HardwareModel::StationG2 => 31,
            HardwareModel::LoraRelayV1 => 32,
            HardwareModel::TEchoPlus => 33,
            HardwareModel::PPR => 34,
            HardwareModel::GenieBlocks => 35,
            HardwareModel::Nrf52Unknown => 36,
            HardwareModel::Portduino => 37,
            HardwareModel::AndroidSim => 38,
            HardwareModel::DiyV1 => 39,
            HardwareModel::Nrf52840Pca10059 => 40,
            HardwareModel::DrDev => 41,
            HardwareModel::M5STACK => 42,
            HardwareModel::HeltecV3 => 43,
            HardwareModel::HeltecWslV3 => 44,
            HardwareModel::Betafpv2400Tx => 45,
            HardwareModel::Betafpv900NanoTx => 46,
            HardwareModel::RpiPico => 47,
            HardwareModel::HeltecWirelessTracker => 48,
            HardwareModel::HeltecWirelessPaper => 49,
            HardwareModel::TDeck => 50,
            HardwareModel::TWatchS3 => 51,
            HardwareModel::PicomputerS3 => 52,
            HardwareModel::HeltecHt62 => 53,
            HardwareModel::EbyteEsp32S3 => 54,
            HardwareModel::Esp32S3Pico => 55,
            HardwareModel::Chatter2 => 56,
            HardwareModel::HeltecWirelessPaperV10 => 57,
            HardwareModel::HeltecWirelessTrackerV10 => 58,
            HardwareModel::UnPhone => 59,
            HardwareModel::TdLorac => 60,
            HardwareModel::CdebyteEoraS3 => 61,
            HardwareModel::TwcMeshV4 => 62,
            HardwareModel::Nrf52PromicroDiy => 63,
            HardwareModel::Radiomaster900BanditNano => 64,
            HardwareModel::HeltecCapsuleSensorV3 => 65,
            HardwareModel::HeltecVisionMasterT190 => 66,
            HardwareModel::HeltecVisionMasterE213 => 67,
            HardwareModel::HeltecVisionMasterE290 => 68,
            HardwareModel::HeltecMeshNodeT114 => 69,
            HardwareModel::SensecapIndicator => 70,
            HardwareModel::TrackerT1000E => 71,
            HardwareModel::RAK3172 => 72,
            HardwareModel::WioE5 => 73,
            HardwareModel::Radiomaster900Bandit => 74,
            HardwareModel::ME25LS01_4Y10TD => 75,
            HardwareModel::Rp2040FeatherRfm95 => 76,
            HardwareModel::M5stackCorebasic => 77,
            HardwareModel::M5stackCore2 => 78,
            HardwareModel::RpiPico2 => 79,
            HardwareModel::M5stackCores3 => 80,
            HardwareModel::SeeedXiaoS3 => 81,
            HardwareModel::MS24SF1 => 82,
            HardwareModel::TloraC6 => 83,
            HardwareModel::WismeshTap => 84,
            HardwareModel::ROUTASTIC => 85,
            HardwareModel::MeshTab => 86,
            HardwareModel::MESHLINK => 87,
            HardwareModel::XiaoNrf52Kit => 88,
            HardwareModel::ThinknodeM1 => 89,
            HardwareModel::ThinknodeM2 => 90,
            HardwareModel::TEthElite => 91,
            HardwareModel::HeltecSensorHub => 92,
            HardwareModel::MuziBase => 93,
            HardwareModel::HeltecMeshPocket => 94,
            HardwareModel::SeeedSolarNode => 95,
            HardwareModel::NomadstarMeteorPro => 96,
            HardwareModel::CROWPANEL => 97,
            HardwareModel::Link32 => 98,
            HardwareModel::SeeedWioTrackerL1 => 99,
            HardwareModel::SeeedWioTrackerL1Eink => 100,
            HardwareModel::MuziR1Neo => 101,
            HardwareModel::TDeckPro => 102,
            HardwareModel::TLoraPager => 103,
            HardwareModel::M5stackReserved => 104,
            HardwareModel::WismeshTag => 105,
            HardwareModel::RAK3312 => 106,
            HardwareModel::ThinknodeM5 => 107,
            HardwareModel::HeltecMeshSolar => 108,
            HardwareModel::TEchoLite => 109,
            HardwareModel::HeltecV4 => 110,
            HardwareModel::M5stackC6l => 111,
            HardwareModel::M5stackCardputerAdv => 112,
            HardwareModel::HeltecWirelessTrackerV2 => 113,
            HardwareModel::TWatchUltra => 114,
            HardwareModel::ThinknodeM3 => 115,
            HardwareModel::WisMeshTapV2 => 116,
            HardwareModel::Rak3401 => 117,
            HardwareModel::Rak6421 => 118,
            HardwareModel::ThinknodeM4 => 119,
            HardwareModel::ThinknodeM6 => 120,
            HardwareModel::Meshstick1262 => 121,
            HardwareModel::TBeam1Watt => 122,
            HardwareModel::T5S3EpaperPro => 123,
            HardwareModel::TBeamBpf => 124,
            HardwareModel::MiniEpaperS3 => 125,
            HardwareModel::TdisplayS3Pro => 126,
            HardwareModel::PrivateHw => 255,
        }
    }

    /// The value numbered `n`, if any.
    pub fn from_u32(n: u32) -> (r: Option<HardwareModel>)
        ensures
            r == hardware_model_from(n),
    {
        let r = match n {
            0 => Some(HardwareModel::Unset),
            1 => Some(HardwareModel::TloraV2),
            2 => Some(HardwareModel::TloraV1),
            3 => Some(HardwareModel::TloraV211p6),
            4 => Some(HardwareModel::TBeam),
            5 => Some(HardwareModel::HeltecV20),
            6 => Some(HardwareModel::TBeamV0p7),
            7 => Some(HardwareModel::TEcho),
            8 => Some(HardwareModel::TloraV11p3),
            9 => Some(HardwareModel::RAK4631),
            10 => Some(HardwareModel::HeltecV21),
            11 => Some(HardwareModel::HeltecV1),
            12 => Some(HardwareModel::LilygoTBeamS3Core),
            13 => Some(HardwareModel::RAK11200),
            14 => Some(HardwareModel::NanoG1),
            15 => Some(HardwareModel::TloraV211p8),
            16 => Some(HardwareModel::TloraT3S3),
            17 => Some(HardwareModel::NanoG1Explorer),
            18 => Some(HardwareModel::NanoG2Ultra),
            19 => Some(HardwareModel::LoraType),
            20 => Some(HardwareModel::WIPHONE),
            21 => Some(HardwareModel::WioWm1110),
            22 => Some(HardwareModel::RAK2560),
            23 => Some(HardwareModel::HeltecHru3601),
            24 => Some(HardwareModel::HeltecWirelessBridge),
            25 => Some(HardwareModel::StationG1),
            26 => Some(HardwareModel::RAK11310),
            27 => Some(HardwareModel::SenseloraRp2040),
            28 => Some(HardwareModel::SenseloraS3),
            29 => Some(HardwareModel::CANARYONE),
            30 => Some(HardwareModel::Rp2040Lora),
            31 => Some(HardwareModel::StationG2),
            32 => Some(HardwareModel::LoraRelayV1),
            33 => Some(HardwareModel::TEchoPlus),
            34 => Some(HardwareModel::PPR),
            35 => Some(HardwareModel::GenieBlocks),
            36 => Some(HardwareModel::Nrf52Unknown),
            37 => Some(HardwareModel::Portduino),
            38 => Some(HardwareModel::AndroidSim),
            39 => Some(HardwareModel::DiyV1),
            40 => Some(HardwareModel::Nrf52840Pca10059),
            41 => Some(HardwareModel::DrDev),
            42 => Some(HardwareModel::M5STACK),
            43 => Some(HardwareModel::HeltecV3),
            44 => Some(HardwareModel::HeltecWslV3),
            45 => Some(HardwareModel::Betafpv2400Tx),
            46 => Some(HardwareModel::Betafpv900NanoTx),
            47 => Some(HardwareModel::RpiPico),
            48 => Some(HardwareModel::HeltecWirelessTracker),
            49 => Some(HardwareModel::HeltecWirelessPaper),
            50 => Some(HardwareModel::TDeck),
            51 => Some(HardwareModel::TWatchS3),
            52 => Some(HardwareModel::PicomputerS3),
            53 => Some(HardwareModel::HeltecHt62),
            54 => Some(HardwareModel::EbyteEsp32S3),
            55 => Some(HardwareModel::Esp32S3Pico),
            56 => Some(HardwareModel::Chatter2),
            57 => Some(HardwareModel::HeltecWirelessPaperV10),
            58 => Some(HardwareModel::HeltecWirelessTrackerV10),
            59 => Some(HardwareModel::UnPhone),
            60 => Some(HardwareModel::TdLorac),
            61 => Some(HardwareModel::CdebyteEoraS3),
            62 => Some(HardwareModel::TwcMeshV4),
            63 => Some(HardwareModel::Nrf52PromicroDiy),
            64 => Some(HardwareModel::Radiomaster900BanditNano),
            65 => Some(HardwareModel::HeltecCapsuleSensorV3),
            66 => Some(HardwareModel::HeltecVisionMasterT190),
            67 => Some(HardwareModel::HeltecVisionMasterE213),
            68 => Some(HardwareModel::HeltecVisionMasterE290),
            69 => Some(HardwareModel::HeltecMeshNodeT114),
            70 => Some(HardwareModel::SensecapIndicator),
            71 => Some(HardwareModel::TrackerT1000E),
            72 => Some(HardwareModel::RAK3172),
            73 => Some(HardwareModel::WioE5),
            74 => Some(HardwareModel::Radiomaster900Bandit),
            75 => Some(HardwareModel::ME25LS01_4Y10TD),
            76 => Some(HardwareModel::Rp2040FeatherRfm95),
            77 => Some(HardwareModel::M5stackCorebasic),
            78 => Some(HardwareModel::M5stackCore2),
            79 => Some(HardwareModel::RpiPico2),
            80 => Some(HardwareModel::M5stackCores3),
            81 => Some(HardwareModel::SeeedXiaoS3),
            82 => Some(HardwareModel::MS24SF1),
            83 => Some(HardwareModel::TloraC6),
            84 => Some(HardwareModel::WismeshTap),
            85 => Some(HardwareModel::ROUTASTIC),
            86 => Some(HardwareModel::MeshTab),
            87 => Some(HardwareModel::MESHLINK),
            88 => Some(HardwareModel::XiaoNrf52Kit),
            89 => Some(HardwareModel::ThinknodeM1),
            90 => Some(HardwareModel::ThinknodeM2),
            91 => Some(HardwareModel::TEthElite),
            92 => Some(HardwareModel::HeltecSensorHub),
            93 => Some(HardwareModel::MuziBase),
            94 => Some(HardwareModel::HeltecMeshPocket),
            95 => Some(HardwareModel::SeeedSolarNode),
            96 => Some(HardwareModel::NomadstarMeteorPro),
            97 => Some(HardwareModel::CROWPANEL),
            98 => Some(HardwareModel::Link32),
            99 => Some(HardwareModel::SeeedWioTrackerL1),
            100 => Some(HardwareModel::SeeedWioTrackerL1Eink),
            101 => Some(HardwareModel::MuziR1Neo),
            102 => Some(HardwareModel::TDeckPro),
            103 => Some(HardwareModel::TLoraPager),
            104 => Some(HardwareModel::M5stackReserved),
            105 => Some(HardwareModel::WismeshTag),
            106 => Some(HardwareModel::RAK3312),
            107 => Some(HardwareModel::ThinknodeM5),
            108 => Some(HardwareModel::HeltecMeshSolar),
            109 => Some(HardwareModel::TEchoLite),
            110 => Some(HardwareModel::HeltecV4),
            111 => Some(HardwareModel::M5stackC6l),
            112 => Some(HardwareModel::M5stackCardputerAdv),
            113 => Some(HardwareModel::HeltecWirelessTrackerV2),
            114 => Some(HardwareModel::TWatchUltra),
            115 => Some(HardwareModel::ThinknodeM3),
            116 => Some(HardwareModel::WisMeshTapV2),
            117 => Some(HardwareModel::Rak3401),
            118 => Some(HardwareModel::Rak6421),
            119 => Some(HardwareModel::ThinknodeM4),
            120 => Some(HardwareModel::ThinknodeM6),
            121 => Some(HardwareModel::Meshstick1262),
            122 => Some(HardwareModel::TBeam1Watt),
            123 => Some(HardwareModel::T5S3EpaperPro),
            124 => Some(HardwareModel::TBeamBpf),
            125 => Some(HardwareModel::MiniEpaperS3),
            126 => Some(HardwareModel::TdisplayS3Pro),
            255 => Some(HardwareModel::PrivateHw),
            _ => None,
        };
        proof {
            match r {
                Some(x) => {
                    assert(hardware_model_value(x) == n);
                    let w = choose|v: HardwareModel| hardware_model_value(v) == n;
                    lemma_hardware_model_injective(w, x);
                },
                None => {
                    assert(forall|v: HardwareModel| hardware_model_value(v) != n);
                },
            }
        }
        r
    }
}

/// The part a node plays in the mesh.
#[derive(Clone, Copy, PartialEq, Eq, Structural, Debug)]
pub enum DeviceRole {
    Client,
    ClientMute,
    Router,
    RouterClient,
    Repeater,
    Tracker,
    Sensor,
    Tak,
    ClientHidden,
    LostAndFound,
    TakTracker,
    RouterLate,
    ClientBase,
}

/// The number that stands for `v` on the wire.
pub open spec fn device_role_value(v: DeviceRole) -> u32 {
    match v {
        DeviceRole::Client => 0,
        DeviceRole::ClientMute => 1,
        DeviceRole::Router => 2,
        DeviceRole::RouterClient => 3,
        DeviceRole::Repeater => 4,
        DeviceRole::Tracker => 5,
        DeviceRole::Sensor => 6,
        DeviceRole::Tak => 7,
        DeviceRole::ClientHidden => 8,
        DeviceRole::LostAndFound => 9,
        DeviceRole::TakTracker => 10,
        DeviceRole::RouterLate => 11,
        DeviceRole::ClientBase => 12,
    }
}

/// The value numbered `n`, if any.
pub open spec fn device_role_from(n: u32) -> Option<DeviceRole> {
    if exists|v: DeviceRole| device_role_value(v) == n {
        Some(choose|v: DeviceRole| device_role_value(v) == n)
    } else {
        None
    }
}

impl Default for DeviceRole {
    fn default() -> (r: Self)
        ensures
            r == DeviceRole::Client,
    {
        DeviceRole::Client
    }
}

impl DeviceRole {
    /// The number that stands for this value on the wire.
    pub fn to_u32(self) -> (n: u32)
        ensures
            n == device_role_value(self),
    {
        match self {
            DeviceRole::Client => 0,
            DeviceRole::ClientMute => 1,
            DeviceRole::Router => 2,
            DeviceRole::RouterClient => 3,
            DeviceRole::Repeater => 4,
            DeviceRole::Tracker => 5,
            DeviceRole::Sensor => 6,
            DeviceRole::Tak => 7,
            DeviceRole::ClientHidden => 8,
            DeviceRole::LostAndFound => 9,
            DeviceRole::TakTracker => 10,
            DeviceRole::RouterLate => 11,
            DeviceRole::ClientBase => 12,
        }
    }

    /// The value numbered `n`, if any.
    pub fn from_u32(n: u32) -> (r: Option<DeviceRole>)
        ensures
            r == device_role_from(n),
    {
        let r = match n {
            0 => Some(DeviceRole::Client),
            1 => Some(DeviceRole::ClientMute),
            2 => Some(DeviceRole::Router),
            3 => Some(DeviceRole::RouterClient),
            4 => Some(DeviceRole::Repeater),
            5 => Some(DeviceRole::Tracker),
            6 => Some(DeviceRole::Sensor),
            7 => Some(DeviceRole::Tak),
            8 => Some(DeviceRole::ClientHidden),
            9 => Some(DeviceRole::LostAndFound),
            10 => Some(DeviceRole::TakTracker),
            11 => Some(DeviceRole::RouterLate),
            12 => Some(DeviceRole::ClientBase),
            _ => None,
        };
        proof {
            match r {
                Some(x) => {
                    assert(device_role_value(x) == n);
                    let w = choose|v: DeviceRole| device_role_value(v) == n;
                    lemma_device_role_injective(w, x);
                },
                None => {
                    assert(forall|v: DeviceRole| device_role_value(v) != n);
                },
            }
        }
        r
    }
}

/// Distinct values of `PortNum` have distinct numbers.
pub proof fn lemma_port_num_injective(a: PortNum, b: PortNum)
    ensures
        port_num_value(a) == port_num_value(b) ==> a == b,
        port_num_value(a) < 512,
{
}

/// A node address is left out of a message exactly when it is no node;
/// otherwise its payload decodes back to it and has the length `wire_len`
/// announces.
pub proof fn lemma_node_id_wire_roundtrip(v: NodeId)
    ensures
        node_id_payload(v) is None <==> v == NodeId(NODE_NONE),
        node_id_payload(v) matches Some(w) ==> <NodeId as FromWire>::accepts(w) && <NodeId as FromWire>::decodes_to(w, v)
            && wire_len(w) == v.encoded_len(),
{
}

/// The value numbered with the number of `v` is `v`.
pub proof fn lemma_port_num_roundtrip(v: PortNum)
    ensures
        port_num_from(port_num_value(v)) == Some(v),
{
    let w = choose|w: PortNum| port_num_value(w) == port_num_value(v);
    lemma_port_num_injective(w, v);
}

impl<'a> FromWire<'a> for PortNum {
    open spec fn accepts(wire: Wire<'a>) -> bool {
        wire matches Wire::VarInt(x) && port_num_from(x as u32) is Some
    }

    open spec fn decodes_to(wire: Wire<'a>, v: PortNum) -> bool {
        wire matches Wire::VarInt(x) && port_num_from(x as u32) == Some(v)
    }

    /// Decodes the value from its number.
    /// Panics, naming `field`, on another wire type or an unknown number.
    fn from_wire(wire: Wire<'a>, field: &'static str) -> (r: PortNum) {
        match PortNum::from_u32(wire.expect_var_int(field) as u32) {
            Some(v) => v,
            None => vstd::pervasive::unreached(),
        }
    }
}

/// The payload of a port: its number as a varint, none for the default port.
pub open spec fn port_num_payload<'a>(v: PortNum) -> Option<Wire<'a>> {
    if port_num_value(v) == 0 {
        None
    } else {
        Some(Wire::VarInt(port_num_value(v) as i32))
    }
}

impl<'a> ToWire<'a> for PortNum {
    open spec fn is_payload(&self, r: Option<Wire<'a>>) -> bool {
        r == port_num_payload(*self)
    }

    open spec fn payload_room(&self) -> nat {
        0
    }

    open spec fn payload_fits(&self) -> bool {
        true
    }

    open spec fn encoded_len(&self) -> nat {
        if port_num_value(*self) == 0 {
            0
        } else {
            varint_bytes(port_num_value(*self)).len()
        }
    }

    /// The value's number as a varint; nothing for the default value.
    fn to_wire(&self, cursor: &mut Cursor<&'a mut [u8]>) -> (r: Option<Wire<'a>>) {
        let n = self.to_u32();
        if n == 0 {
            None
        } else {
            Some(Wire::VarInt(n as i32))
        }
    }

    fn wire_len(&self) -> (n: usize) {
        proof {
            lemma_port_num_injective(*self, *self);
        }
        let n = self.to_u32();
        if n == 0 {
            0
        } else {
            len_of(n as i32)
        }
    }
}

/// A `PortNum` is left out of a message exactly when it is the default, and
/// otherwise its payload decodes back to it.
pub proof fn lemma_port_num_wire_roundtrip(v: PortNum)
    ensures
        port_num_payload(v) is None <==> v == PortNum::UnknownApp,
        port_num_payload(v) matches Some(w) ==> PortNum::accepts(w) && PortNum::decodes_to(w, v)
            && wire_len(w) == v.encoded_len(),
{
    lemma_port_num_injective(v, PortNum::UnknownApp);
    lemma_port_num_roundtrip(v);
    assert((port_num_value(v) as i32) as u32 == port_num_value(v));
}

/// Distinct values of `HardwareModel` have distinct numbers.
pub proof fn lemma_hardware_model_injective(a: HardwareModel, b: HardwareModel)
    ensures
        hardware_model_value(a) == hardware_model_value(b) ==> a == b,
        hardware_model_value(a) < 256,
{
}

/// The value numbered with the number of `v` is `v`.
pub proof fn lemma_hardware_model_roundtrip(v: HardwareModel)
    ensures
        hardware_model_from(hardware_model_value(v)) == Some(v),
{
    let w = choose|w: HardwareModel| hardware_model_value(w) == hardware_model_value(v);
    lemma_hardware_model_injective(w, v);
}

impl<'a> FromWire<'a> for HardwareModel {
    open spec fn accepts(wire: Wire<'a>) -> bool {
        wire matches Wire::VarInt(x) && hardware_model_from(x as u32) is Some
    }

    open spec fn decodes_to(wire: Wire<'a>, v: HardwareModel) -> bool {
        wire matches Wire::VarInt(x) && hardware_model_from(x as u32) == Some(v)
    }

    /// Decodes the value from its number.
    /// Panics, naming `field`, on another wire type or an unknown number.
    fn from_wire(wire: Wire<'a>, field: &'static str) -> (r: HardwareModel) {
        match HardwareModel::from_u32(wire.expect_var_int(field) as u32) {
            Some(v) => v,
            None => vstd::pervasive::unreached(),
        }
    }
}

/// The payload of a hardware model: its number as a varint, none for the default.
pub open spec fn hardware_model_payload<'a>(v: HardwareModel) -> Option<Wire<'a>> {
    if hardware_model_value(v) == 0 {
        None
    } else {
        Some(Wire::VarInt(hardware_model_value(v) as i32))
    }
}

impl<'a> ToWire<'a> for HardwareModel {
    open spec fn is_payload(&self, r: Option<Wire<'a>>) -> bool {
        r == hardware_model_payload(*self)
    }

    open spec fn payload_room(&self) -> nat {
        0
    }

    open spec fn payload_fits(&self) -> bool {
        true
    }

    open spec fn encoded_len(&self) -> nat {
        if hardware_model_value(*self) == 0 {
            0
        } else {
            varint_bytes(hardware_model_value(*self)).len()
        }
    }

    /// The value's number as a varint; nothing for the default value.
    fn to_wire(&self, cursor: &mut Cursor<&'a mut [u8]>) -> (r: Option<Wire<'a>>) {
        let n = self.to_u32();
        if n == 0 {
            None
        } else {
            Some(Wire::VarInt(n as i32))
        }
    }

    fn wire_len(&self) -> (n: usize) {
        proof {
            lemma_hardware_model_injective(*self, *self);
        }
        let n = self.to_u32();
        if n == 0 {
            0
        } else {
            len_of(n as i32)
        }
    }
}

/// A `HardwareModel` is left out of a message exactly when it is the default, and
/// otherwise its payload decodes back to it.
pub proof fn lemma_hardware_model_wire_roundtrip(v: HardwareModel)
    ensures
        hardware_model_payload(v) is None <==> v == HardwareModel::Unset,
        hardware_model_payload(v) matches Some(w) ==> HardwareModel::accepts(w) && HardwareModel::decodes_to(w, v)
            && wire_len(w) == v.encoded_len(),
{
    lemma_hardware_model_injective(v, HardwareModel::Unset);
    lemma_hardware_model_roundtrip(v);
    assert((hardware_model_value(v) as i32) as u32 == hardware_model_value(v));
}

/// Distinct values of `DeviceRole` have distinct numbers.
pub proof fn lemma_device_role_injective(a: DeviceRole, b: DeviceRole)
    ensures
        device_role_value(a) == device_role_value(b) ==> a == b,
        device_role_value(a) < 13,
{
}

/// The value numbered with the number of `v` is `v`.
pub proof fn lemma_device_role_roundtrip(v: DeviceRole)
    ensures
        device_role_from(device_role_value(v)) == Some(v),
{
    let w = choose|w: DeviceRole| device_role_value(w) == device_role_value(v);
    lemma_device_role_injective(w, v);
}

impl<'a> FromWire<'a> for DeviceRole {
    open spec fn accepts(wire: Wire<'a>) -> bool {
        wire matches Wire::VarInt(x) && device_role_from(x as u32) is Some
    }

    open spec fn decodes_to(wire: Wire<'a>, v: DeviceRole) -> bool {
        wire matches Wire::VarInt(x) && device_role_from(x as u32) == Some(v)
    }

    /// Decodes the value from its number.
    /// Panics, naming `field`, on another wire type or an unknown number.
    fn from_wire(wire: Wire<'a>, field: &'static str) -> (r: DeviceRole) {
        match DeviceRole::from_u32(wire.expect_var_int(field) as u32) {
            Some(v) => v,
            None => vstd::pervasive::unreached(),
        }
    }
}

/// The payload of a device role: its number as a varint, none for the default.
pub open spec fn device_role_payload<'a>(v: DeviceRole) -> Option<Wire<'a>> {
    if device_role_value(v) == 0 {
        None
    } else {
        Some(Wire::VarInt(device_role_value(v) as i32))
    }
}

impl<'a> ToWire<'a> for DeviceRole {
    open spec fn is_payload(&self, r: Option<Wire<'a>>) -> bool {
        r == device_role_payload(*self)
    }

    open spec fn payload_room(&self) -> nat {
        0
    }

    open spec fn payload_fits(&self) -> bool {
        true
    }

    open spec fn encoded_len(&self) -> nat {
        if device_role_value(*self) == 0 {
            0
        } else {
            varint_bytes(device_role_value(*self)).len()
        }
    }

    /// The value's number as a varint; nothing for the default value.
    fn to_wire(&self, cursor: &mut Cursor<&'a mut [u8]>) -> (r: Option<Wire<'a>>) {
        let n = self.to_u32();
        if n == 0 {
            None
        } else {
            Some(Wire::VarInt(n as i32))
        }
    }

    fn wire_len(&self) -> (n: usize) {
        proof {
            lemma_device_role_injective(*self, *self);
        }
        let n = self.to_u32();
        if n == 0 {
            0
        } else {
            len_of(n as i32)
        }
    }
}

/// A `DeviceRole` is left out of a message exactly when it is the default, and
/// otherwise its payload decodes back to it.
pub proof fn lemma_device_role_wire_roundtrip(v: DeviceRole)
    ensures
        device_role_payload(v) is None <==> v == DeviceRole::Client,
        device_role_payload(v) matches Some(w) ==> DeviceRole::accepts(w) && DeviceRole::decodes_to(w, v)
            && wire_len(w) == v.encoded_len(),
{
    lemma_device_role_injective(v, DeviceRole::Client);
    lemma_device_role_roundtrip(v);
    assert((device_role_value(v) as i32) as u32 == device_role_value(v));
}

/// The payload of a Meshtastic packet: the application it is for and its
/// bytes, with routing details.
pub struct Data<'a> {
    pub port_num: PortNum,
    pub payload: &'a [u8],
    pub want_response: bool,
    pub dest: NodeId,
    pub source: NodeId,
    pub request_id: u32,
    pub reply_id: u32,
    pub emoji: u32,
    pub bitfield: Option<u32>,
}

/// The field values of a `Data` message, in field order, its payload by its
/// bytes.
pub type DataFields = (PortNum, Seq<u8>, bool, NodeId, NodeId, u32, u32, u32, Option<u32>);

/// The field values of `d`.
pub open spec fn data_fields(d: Data) -> DataFields {
    (
        d.port_num,
        d.payload@,
        d.want_response,
        d.dest,
        d.source,
        d.request_id,
        d.reply_id,
        d.emoji,
        d.bitfield,
    )
}

/// The field values of a message without fields: every field has its default.
pub open spec fn data_defaults() -> DataFields {
    (PortNum::UnknownApp, Seq::empty(), false, NodeId(0), NodeId(0), 0, 0, 0, None)
}

impl<'a> Default for Data<'a> {
    fn default() -> (d: Self)
        ensures
            data_fields(d) == data_defaults(),
    {
        let empty: &'a [u8] = &[];
        Data {
            port_num: PortNum::UnknownApp,
            payload: empty,
            want_response: false,
            dest: NodeId(0),
            source: NodeId(0),
            request_id: 0,
            reply_id: 0,
            emoji: 0,
            bitfield: None,
        }
    }
}

/// Whether the field at the front of `s` is one of `Data`'s, with its wire
/// type (and, for the port, a known port number).
pub open spec fn data_field_accepted(s: Seq<u8>) -> bool {
    let ty = field_type(s);
    let v = varint_read(field_body(s)).unwrap().0;
    let id = field_id(s);
    if id == 1 {
        ty == WireType::VarInt && port_num_from(v) is Some
    } else if id == 2 {
        ty == WireType::Len
    } else if id == 3 || id == 9 {
        ty == WireType::VarInt
    } else if 4 <= id <= 8 {
        ty == WireType::Fixed32
    } else {
        false
    }
}

/// The field values after the field at the front of `s` is read over `acc`.
pub open spec fn data_apply(acc: DataFields, s: Seq<u8>) -> DataFields {
    let t = field_body(s);
    let v = varint_read(t).unwrap().0;
    let x = u32_from_le(t);
    let id = field_id(s);
    if id == 1 {
        (port_num_from(v).unwrap(), acc.1, acc.2, acc.3, acc.4, acc.5, acc.6, acc.7, acc.8)
    } else if id == 2 {
        (
            acc.0,
            t.subrange(varint_read(t).unwrap().1 as int, wire_read_len(t, WireType::Len) as int),
            acc.2,
            acc.3,
            acc.4,
            acc.5,
            acc.6,
            acc.7,
            acc.8,
        )
    } else if id == 3 {
        (acc.0, acc.1, v != 0, acc.3, acc.4, acc.5, acc.6, acc.7, acc.8)
    } else if id == 4 {
        (acc.0, acc.1, acc.2, NodeId(x), acc.4, acc.5, acc.6, acc.7, acc.8)
    } else if id == 5 {
        (acc.0, acc.1, acc.2, acc.3, NodeId(x), acc.5, acc.6, acc.7, acc.8)
    } else if id == 6 {
        (acc.0, acc.1, acc.2, acc.3, acc.4, x, acc.6, acc.7, acc.8)
    } else if id == 7 {
        (acc.0, acc.1, acc.2, acc.3, acc.4, acc.5, x, acc.7, acc.8)
    } else if id == 8 {
        (acc.0, acc.1, acc.2, acc.3, acc.4, acc.5, acc.6, x, acc.8)
    } else {
        (acc.0, acc.1, acc.2, acc.3, acc.4, acc.5, acc.6, acc.7, Some(v))
    }
}

/// Whether `s` is a sequence of whole `Data` fields.
pub open spec fn data_fields_ok(s: Seq<u8>) -> bool
    decreases s.len(),
{
    if s.len() == 0 {
        true
    } else if field_readable(s) && data_field_accepted(s) && 0 < field_len(s) <= s.len() {
        data_fields_ok(s.skip(field_len(s) as int))
    } else {
        false
    }
}

/// The field values after the fields of `s` are read over `acc`, in order; a
/// field that comes again overrides the earlier one.
pub open spec fn data_fold(s: Seq<u8>, acc: DataFields) -> DataFields
    decreases s.len(),
{
    if s.len() == 0 || !(0 < field_len(s) <= s.len()) {
        acc
    } else {
        data_fold(s.skip(field_len(s) as int), data_apply(acc, s))
    }
}

impl<'a> FromWire<'a> for Data<'a> {
    open spec fn accepts(wire: Wire<'a>) -> bool {
        (wire is Len || wire is LenMut) && data_fields_ok(wire_payload(wire))
    }

    open spec fn decodes_to(wire: Wire<'a>, v: Data<'a>) -> bool {
        (wire is Len || wire is LenMut) && data_fields(v) == data_fold(
            wire_payload(wire),
            data_defaults(),
        )
    }

    /// Decodes a message from its bytes, field by field; a field left out
    /// keeps its default.
    /// Panics, naming `field`, when the payload is not a byte string, and on
    /// a field that is unknown or of the wrong wire type.
    fn from_wire(wire: Wire<'a>, field: &'static str) -> (r: Data<'a>) {
        let payload = wire.expect_len(field);
        let mut cursor = Cursor::<&'a [u8]>::new(payload);
        let mut this = Self::default();
        while cursor.has_next()
            invariant
                data_fields_ok(cursor@),
                data_fold(payload@, data_defaults()) == data_fold(cursor@, data_fields(this)),
            decreases cursor@.len(),
        {
            let ghost s = cursor@;
            let ghost before = data_fields(this);
            proof {
                lemma_varint_read_len(s);
            }
            let (id, wire) = cursor.read_wire();
            let ghost t = field_body(s);
            proof {
                let v = varint_read(t).unwrap().0;
                assert((v as i32) as u32 == v) by (bit_vector);
                assert(field_id(s) == id);
            }
            if id == 1 {
                this.port_num = PortNum::from_wire(wire, "port_num");
            } else if id == 2 {
                this.payload = <&'a [u8]>::from_wire(wire, "payload");
            } else if id == 3 {
                this.want_response = bool::from_wire(wire, "want_response");
            } else if id == 4 {
                this.dest = NodeId::from_wire(wire, "dest");
            } else if id == 5 {
                this.source = NodeId::from_wire(wire, "source");
            } else if id == 6 {
                this.request_id = u32::from_wire(wire, "request_id");
            } else if id == 7 {
                this.reply_id = u32::from_wire(wire, "reply_id");
            } else if id == 8 {
                this.emoji = u32::from_wire(wire, "emoji");
            } else if id == 9 {
                this.bitfield = <Option<u32>>::from_wire(wire, "bitfield");
            } else {
                vstd::pervasive::unreached::<()>();
            }
            proof {
                assert(data_fields(this) =~= data_apply(before, s));
            }
        }
        this
    }
}

/// The length a field `l` bytes long adds to a message, its tag counted as
/// one byte; nothing for a field that is left out.
pub open spec fn with_tag(l: nat) -> nat {
    if l > 0 {
        l + 1
    } else {
        0
    }
}

/// The length of `d`'s fields as `wire_len` counts them: each field's
/// `wire_len`, and a byte for the tag of each field that is written.
pub open spec fn data_fields_len(d: Data) -> nat {
    with_tag(d.port_num.encoded_len()) + with_tag(d.payload.encoded_len()) + with_tag(
        d.want_response.encoded_len(),
    ) + with_tag(d.dest.encoded_len()) + with_tag(d.source.encoded_len()) + with_tag(
        d.request_id.encoded_len(),
    ) + with_tag(d.reply_id.encoded_len()) + with_tag(d.emoji.encoded_len()) + with_tag(
        d.bitfield.encoded_len(),
    )
}

/// The length `wire_len` gives for `d`: its fields' length, after the length
/// of that number as a varint.
pub open spec fn data_len(d: Data) -> nat {
    varint_bytes((data_fields_len(d) as i32) as u32).len() + data_fields_len(d)
}

/// The bytes of `d`'s port, payload and want-response fields, each with its
/// tag; a field at its default is left out.
pub open spec fn data_app_bytes(d: Data) -> Seq<u8> {
    field_bytes(1, port_num_payload(d.port_num)) + field_bytes(2, bytes_payload(d.payload))
        + field_bytes(3, bool_payload(d.want_response))
}

/// The bytes of `d`'s destination, source and request fields, each with its
/// tag; a field at its default is left out.
pub open spec fn data_route_bytes(d: Data) -> Seq<u8> {
    field_bytes(4, node_id_payload(d.dest)) + field_bytes(5, node_id_payload(d.source))
        + field_bytes(6, u32_payload(d.request_id))
}

/// The bytes of `d`'s reply, emoji and bitfield fields, each with its tag; a
/// field at its default is left out.
pub open spec fn data_reply_bytes(d: Data) -> Seq<u8> {
    field_bytes(7, u32_payload(d.reply_id)) + field_bytes(8, u32_payload(d.emoji))
        + field_bytes(9, option_u32_payload(d.bitfield))
}

/// The bytes of `d`'s fields, in field order, each with its tag; a field at
/// its default is left out.
pub open spec fn data_body(d: Data) -> Seq<u8> {
    data_app_bytes(d) + data_route_bytes(d) + data_reply_bytes(d)
}

/// The bytes `to_wire` builds for `d`: the length `wire_len` gives, as a
/// varint, then the fields.
pub open spec fn data_encoding(d: Data) -> Seq<u8> {
    varint_bytes((data_len(d) as i32) as u32) + data_body(d)
}

impl<'a> ToWire<'a> for Data<'a> {
    open spec fn is_payload(&self, r: Option<Wire<'a>>) -> bool {
        r matches Some(Wire::LenMut(p)) && p@ == data_encoding(*self)
    }

    open spec fn payload_room(&self) -> nat {
        data_len(*self)
    }

    /// The bytes built fill the room exactly. (They are never fewer, by
    /// `lemma_data_encoding_len`; they are more, and do not fit, when the
    /// length prefix, or that of the byte string field, takes more bytes than
    /// `wire_len` counted for it.)
    open spec fn payload_fits(&self) -> bool {
        data_encoding(*self).len() == data_len(*self)
    }

    open spec fn encoded_len(&self) -> nat {
        data_len(*self)
    }

    /// Builds the message in the next `wire_len()` bytes of the cursor: the
    /// length `wire_len` gives, as a varint, then each field that is not at
    /// its default, in field order.
    fn to_wire(&self, cursor: &mut Cursor<&'a mut [u8]>) -> (r: Option<Wire<'a>>) {
        let ghost enc = data_encoding(*self);
        proof {
            let b: &[u8] = &*cursor.buffer;
            assert(b.len() == b@.len());
        }
        let len = self.wire_len();
        let payload = cursor.take_slice_mut(len);
        let mut cur = Cursor::<&mut [u8]>::new(&mut *payload);
        let ghost c0 = cur.buffer;
        cur.write_var_i32(len as i32);
        self.put_app_fields(cursor, &mut cur);
        self.put_route_fields(cursor, &mut cur);
        self.put_reply_fields(cursor, &mut cur);
        proof {
            let t = final(cur.buffer)@;
            assert(t =~= Seq::<u8>::empty());
            assert(final(c0)@ =~= enc);
        }
        Some(Wire::LenMut(payload))
    }

    fn wire_len(&self) -> (n: usize) {
        let l1 = self.port_num.wire_len();
        let l2 = self.payload.wire_len();
        let l3 = self.want_response.wire_len();
        let l4 = self.dest.wire_len();
        let l5 = self.source.wire_len();
        let l6 = self.request_id.wire_len();
        let l7 = self.reply_id.wire_len();
        let l8 = self.emoji.wire_len();
        let l9 = self.bitfield.wire_len();
        let mut len: usize = 0;
        len = add_field(len, l1);
        len = add_field(len, l2);
        len = add_field(len, l3);
        len = add_field(len, l4);
        len = add_field(len, l5);
        len = add_field(len, l6);
        len = add_field(len, l7);
        len = add_field(len, l8);
        len = add_field(len, l9);
        len_of(len as i32) + len
    }
}

/// A field numbered below 16 has a one-byte tag.
proof fn lemma_small_tag(id: usize, ty: WireType)
    requires
        id < 16,
    ensures
        varint_bytes(tag_of(id, ty)).len() == 1,
{
    let c = wire_type_code(ty) as u32;
    assert(c < 8);
    assert(id < 16 && c < 8 ==> (((id as u32) << 3u32) | c) < 0x80) by (bit_vector);
    lemma_varint_bytes_len(tag_of(id, ty));
}

/// A field numbered below 16 whose payload, when there is one, is written in
/// `l` bytes (and is absent exactly when `l` is zero) takes `with_tag(l)`
/// bytes.
proof fn lemma_field_bytes_len(id: usize, w: Option<Wire>, l: nat)
    requires
        id < 16,
        w is None <==> l == 0,
        w matches Some(x) ==> wire_bytes(x).len() == l,
    ensures
        field_bytes(id, w).len() == with_tag(l),
{
    if let Some(x) = w {
        lemma_small_tag(id, wire_type(x));
    }
}

/// For a message shorter than 2^31 bytes, `to_wire` never builds fewer bytes
/// than `wire_len` counts: each length prefix it writes takes at least the
/// bytes counted for it.
pub proof fn lemma_data_encoding_len(d: Data)
    requires
        data_len(d) < 0x8000_0000,
    ensures
        data_encoding(d).len() >= data_len(d),
{
    let inner = data_fields_len(d);
    let len = data_len(d);
    assert(varint_bytes((len as i32) as u32).len() >= varint_bytes((inner as i32) as u32).len())
        by {
        lemma_varint_bytes_len((inner as i32) as u32);
        lemma_varint_bytes_len((len as i32) as u32);
        assert((inner as i32) as u32 == inner);
        assert((len as i32) as u32 == len);
    }
    assert(field_bytes(1, port_num_payload(d.port_num)).len() == with_tag(
        d.port_num.encoded_len(),
    )) by {
        lemma_port_num_injective(d.port_num, PortNum::UnknownApp);
        let pv = port_num_value(d.port_num);
        assert((pv as i32) as u32 == pv);
        lemma_field_bytes_len(1, port_num_payload(d.port_num), d.port_num.encoded_len());
    }
    assert(field_bytes(2, bytes_payload(d.payload)).len() >= with_tag(d.payload.encoded_len()))
        by {
        let n = d.payload@.len();
        if n > 0 {
            let sl = slice_wire_len(n);
            lemma_varint_bytes_len((n as i32) as u32);
            assert((n as i32) as u32 == n);
            lemma_varint_bytes_len((sl as i32) as u32);
            assert((sl as i32) as u32 == sl);
            lemma_small_tag(2, WireType::Len);
        }
    }
    assert(field_bytes(3, bool_payload(d.want_response)).len() == with_tag(
        d.want_response.encoded_len(),
    )) by {
        lemma_field_bytes_len(3, bool_payload(d.want_response), d.want_response.encoded_len());
    }
    assert(field_bytes(4, node_id_payload(d.dest)).len() == with_tag(d.dest.encoded_len())) by {
        lemma_u32_roundtrip(d.dest.0, Seq::empty());
        lemma_field_bytes_len(4, node_id_payload(d.dest), d.dest.encoded_len());
    }
    assert(field_bytes(5, node_id_payload(d.source)).len() == with_tag(d.source.encoded_len()))
        by {
        lemma_u32_roundtrip(d.source.0, Seq::empty());
        lemma_field_bytes_len(5, node_id_payload(d.source), d.source.encoded_len());
    }
    assert(field_bytes(6, u32_payload(d.request_id)).len() == with_tag(
        d.request_id.encoded_len(),
    )) by {
        lemma_u32_roundtrip(d.request_id, Seq::empty());
        lemma_field_bytes_len(6, u32_payload(d.request_id), d.request_id.encoded_len());
    }
    assert(field_bytes(7, u32_payload(d.reply_id)).len() == with_tag(d.reply_id.encoded_len()))
        by {
        lemma_u32_roundtrip(d.reply_id, Seq::empty());
        lemma_field_bytes_len(7, u32_payload(d.reply_id), d.reply_id.encoded_len());
    }
    assert(field_bytes(8, u32_payload(d.emoji)).len() == with_tag(d.emoji.encoded_len())) by {
        lemma_u32_roundtrip(d.emoji, Seq::empty());
        lemma_field_bytes_len(8, u32_payload(d.emoji), d.emoji.encoded_len());
    }
    assert(field_bytes(9, option_u32_payload(d.bitfield)).len() == with_tag(
        d.bitfield.encoded_len(),
    )) by {
        lemma_field_bytes_len(9, option_u32_payload(d.bitfield), d.bitfield.encoded_len());
    }
}

impl<'a> Data<'a> {
    /// Writes the port, payload and want-response fields to `cur`, as
    /// `to_wire` does.
    fn put_app_fields<'x>(
        &self,
        cursor: &mut Cursor<&'a mut [u8]>,
        cur: &mut Cursor<&'x mut [u8]>,
    ) where 'a: 'x
        requires
            data_app_bytes(*self).len() <= old(cur)@.len(),
            slice_wire_len(self.payload@.len()) <= usize::MAX,
        ensures
            final(cursor)@ == old(cursor)@,
            final(old(cursor).buffer)@ == final(final(cursor).buffer)@,
            final(cur)@ == old(cur)@.skip(data_app_bytes(*self).len() as int),
            final(old(cur).buffer)@ == data_app_bytes(*self) + final(final(cur).buffer)@,
    {
        let ghost s = cur@;
        put_field(cur, 1, self.port_num.to_wire(cursor));
        put_field(cur, 2, self.payload.to_wire(cursor));
        put_field(cur, 3, self.want_response.to_wire(cursor));
        proof {
            assert(s.skip(data_app_bytes(*self).len() as int) =~= cur@);
        }
    }

    /// Writes the destination, source and request fields to `cur`, as
    /// `to_wire` does.
    fn put_route_fields<'x>(
        &self,
        cursor: &mut Cursor<&'a mut [u8]>,
        cur: &mut Cursor<&'x mut [u8]>,
    ) where 'a: 'x
        requires
            data_route_bytes(*self).len() <= old(cur)@.len(),
        ensures
            final(cursor)@ == old(cursor)@,
            final(old(cursor).buffer)@ == final(final(cursor).buffer)@,
            final(cur)@ == old(cur)@.skip(data_route_bytes(*self).len() as int),
            final(old(cur).buffer)@ == data_route_bytes(*self) + final(final(cur).buffer)@,
    {
        let ghost s = cur@;
        put_field(cur, 4, self.dest.to_wire(cursor));
        put_field(cur, 5, self.source.to_wire(cursor));
        put_field(cur, 6, self.request_id.to_wire(cursor));
        proof {
            assert(s.skip(data_route_bytes(*self).len() as int) =~= cur@);
        }
    }

    /// Writes the reply, emoji and bitfield fields to `cur`, as `to_wire` does.
    fn put_reply_fields<'x>(
        &self,
        cursor: &mut Cursor<&'a mut [u8]>,
        cur: &mut Cursor<&'x mut [u8]>,
    ) where 'a: 'x
        requires
            data_reply_bytes(*self).len() <= old(cur)@.len(),
        ensures
            final(cursor)@ == old(cursor)@,
            final(old(cursor).buffer)@ == final(final(cursor).buffer)@,
            final(cur)@ == old(cur)@.skip(data_reply_bytes(*self).len() as int),
            final(old(cur).buffer)@ == data_reply_bytes(*self) + final(final(cur).buffer)@,
    {
        let ghost s = cur@;
        put_field(cur, 7, self.reply_id.to_wire(cursor));
        put_field(cur, 8, self.emoji.to_wire(cursor));
        put_field(cur, 9, self.bitfield.to_wire(cursor));
        proof {
            assert(s.skip(data_reply_bytes(*self).len() as int) =~= cur@);
        }
    }
}

/// Writes field `id` with payload `wire`, when there is one.
/// Panics when the cursor has no room for it.
fn put_field<'x>(cur: &mut Cursor<&'x mut [u8]>, id: usize, wire: Option<Wire<'x>>)
    requires
        field_bytes(id, wire).len() <= old(cur)@.len(),
        wire matches Some(w) ==> slice_wire_len(wire_payload(w).len()) <= usize::MAX,
    ensures
        final(cur)@ == old(cur)@.skip(field_bytes(id, wire).len() as int),
        final(old(cur).buffer)@ == field_bytes(id, wire) + final(final(cur).buffer)@,
{
    if let Some(wire) = wire {
        cur.write_wire(id, wire);
    }
}

/// Adds a field `l` bytes long, and a byte for its tag if it is written, to
/// the length `len`.
fn add_field(len: usize, l: usize) -> (n: usize)
    requires
        len + with_tag(l as nat) <= usize::MAX,
    ensures
        n == len + with_tag(l as nat),
{
    let mut n = len + l;
    if l > 0 {
        n = n + 1;
    }
    n
}

/// Reading a field that `write_wire` wrote (a varint or fixed 32-bit
/// payload, or none at all) in front of `rest`: the fold takes that one field,
/// whose number and body it reads back, and goes on with `rest`.
proof fn lemma_fold_field(id: usize, w: Option<Wire>, rest: Seq<u8>, acc: DataFields)
    requires
        id < 16,
        w matches Some(x) ==> x is VarInt || x is Fixed32,
    ensures
        w is None ==> data_fold(field_bytes(id, w) + rest, acc) == data_fold(rest, acc),
        w matches Some(x) ==> {
            let s = field_bytes(id, w) + rest;
            &&& field_id(s) == id
            &&& field_body(s) == wire_bytes(x) + rest
            &&& data_fold(s, acc) == data_fold(rest, data_apply(acc, s))
        },
{
    match w {
        None => {
            assert(field_bytes(id, w) + rest =~= rest);
        },
        Some(x) => {
            let t = varint_bytes(tag_of(id, wire_type(x)));
            let s = field_bytes(id, w) + rest;
            assert(s =~= t + wire_bytes(x) + rest);
            lemma_field_roundtrip(id, x, rest);
            lemma_varint_bytes_len(tag_of(id, wire_type(x)));
            assert(s.skip(t.len() as int) =~= wire_bytes(x) + rest);
            assert(s.skip(field_len(s) as int) =~= rest);
        },
    }
}

/// The tag bytes of `Data`'s fields, eight times the field number plus the
/// wire type's code, and how the tag byte 0x12 reads back.
proof fn lemma_data_tag_values()
    ensures
        tag_of(1, WireType::VarInt) == 0x08,
        tag_of(2, WireType::Len) == 0x12,
        tag_of(3, WireType::VarInt) == 0x18,
        tag_of(4, WireType::Fixed32) == 0x25,
        tag_of(5, WireType::Fixed32) == 0x2D,
        tag_of(6, WireType::Fixed32) == 0x35,
        tag_of(7, WireType::Fixed32) == 0x3D,
        tag_of(8, WireType::Fixed32) == 0x45,
        tag_of(9, WireType::VarInt) == 0x48,
        ((0x12u32 as i32) >> 3i32) as usize == 2,
        (0x12u32 & 7) as u8 == 2,
{
    assert(((1u32 << 3u32) | 0u32) == 0x08 && ((2u32 << 3u32) | 2u32) == 0x12 && ((3u32 << 3u32)
        | 0u32) == 0x18 && ((4u32 << 3u32) | 5u32) == 0x25 && ((5u32 << 3u32) | 5u32) == 0x2D && ((
    6u32 << 3u32) | 5u32) == 0x35 && ((7u32 << 3u32) | 5u32) == 0x3D && ((8u32 << 3u32) | 5u32)
        == 0x45 && ((9u32 << 3u32) | 0u32) == 0x48 && ((0x12u32 as i32) >> 3i32) as usize == 2 && (
    0x12u32 & 7) as u8 == 2) by (bit_vector);
}

/// Decoding a message that holds one field, written under the tag byte `tag`
/// (a field below 16 with that wire type): its fields are what reading that
/// one field gives over the defaults.
proof fn lemma_decode_one<'a>(tag: u8, id: usize, x: Wire, b: &'a [u8], d: Data<'a>)
    requires
        id < 16,
        x is VarInt || x is Fixed32,
        tag_of(id, wire_type(x)) == tag,
        tag < 0x80,
        b@ == seq![tag] + wire_bytes(x),
        <Data<'a> as FromWire<'a>>::decodes_to(Wire::Len(b), d),
    ensures
        field_id(b@) == id,
        field_body(b@) == wire_bytes(x),
        data_fields(d) == data_apply(data_defaults(), b@),
{
    let e = Seq::<u8>::empty();
    assert(varint_bytes(tag as u32) =~= seq![tag]);
    assert(b@ =~= field_bytes(id, Some(x)) + e);
    lemma_fold_field(id, Some(x), e, data_defaults());
    assert(wire_bytes(x) + e =~= wire_bytes(x));
}

/// The numbers of `Data`'s fixed 32-bit fields: a message holding only a
/// fixed 32-bit field `v` decodes, under the tag byte 0x25 (field 4), to the
/// destination `v`; under 0x2D (field 5) to the source `v`; under 0x35 (field
/// 6) to the request id `v`; under 0x3D (field 7) to the reply id `v`; under
/// 0x45 (field 8) to the emoji `v`. Every other field keeps its default.
pub proof fn lemma_data_decode_fixed32_field<'a>(tag: u8, v: u32, b: &'a [u8], d: Data<'a>)
    requires
        tag == 0x25 || tag == 0x2D || tag == 0x35 || tag == 0x3D || tag == 0x45,
        b@ == seq![tag] + u32_le_bytes(v),
        <Data<'a> as FromWire<'a>>::decodes_to(Wire::Len(b), d),
    ensures
        d.dest == NodeId(if tag == 0x25 { v } else { 0 }),
        d.source == NodeId(if tag == 0x2D { v } else { 0 }),
        d.request_id == (if tag == 0x35 { v } else { 0 }),
        d.reply_id == (if tag == 0x3D { v } else { 0 }),
        d.emoji == (if tag == 0x45 { v } else { 0 }),
        d.port_num == PortNum::UnknownApp,
        d.payload@.len() == 0,
        !d.want_response,
        d.bitfield is None,
{
    let x = Wire::Fixed32(v);
    lemma_u32_roundtrip(v, Seq::empty());
    assert(u32_le_bytes(v) + Seq::<u8>::empty() =~= u32_le_bytes(v));
    let id: usize = if tag == 0x25 {
        4
    } else if tag == 0x2D {
        5
    } else if tag == 0x35 {
        6
    } else if tag == 0x3D {
        7
    } else {
        8
    };
    lemma_data_tag_values();
    lemma_decode_one(tag, id, x, b, d);
}

/// The numbers of `Data`'s varint fields: a message holding only the varint
/// `x` decodes, under the tag byte 0x08 (field 1), to the port numbered `x`;
/// under 0x18 (field 3) to a want-response flag that is set exactly when `x`
/// is not 0; under 0x48 (field 9) to the bitfield `x`. Every other field
/// keeps its default.
pub proof fn lemma_data_decode_varint_field<'a>(tag: u8, x: u32, b: &'a [u8], d: Data<'a>)
    requires
        tag == 0x08 || tag == 0x18 || tag == 0x48,
        tag == 0x08 ==> port_num_from(x) is Some,
        b@ == seq![tag] + varint_bytes(x),
        <Data<'a> as FromWire<'a>>::decodes_to(Wire::Len(b), d),
    ensures
        tag == 0x08 ==> port_num_value(d.port_num) == x,
        tag != 0x08 ==> d.port_num == PortNum::UnknownApp,
        d.want_response == (tag == 0x18 && x != 0),
        d.bitfield == (if tag == 0x48 { Some(x) } else { None }),
        d.payload@.len() == 0,
        d.dest == NodeId(0),
        d.source == NodeId(0),
        d.request_id == 0,
        d.reply_id == 0,
        d.emoji == 0,
{
    let w = Wire::VarInt(x as i32);
    assert((x as i32) as u32 == x) by (bit_vector);
    lemma_varint_roundtrip(x, Seq::empty());
    assert(varint_bytes(x) + Seq::<u8>::empty() =~= varint_bytes(x));
    let id: usize = if tag == 0x08 {
        1
    } else if tag == 0x18 {
        3
    } else {
        9
    };
    lemma_data_tag_values();
    lemma_decode_one(tag, id, w, b, d);
}

/// The number of `Data`'s payload field: a message holding only the tag byte
/// 0x12 (field 2, a byte string), a one-byte length `n` and `n` bytes decodes
/// to those bytes as its payload; every other field keeps its default.
pub proof fn lemma_data_decode_payload_field<'a>(n: u8, p: Seq<u8>, b: &'a [u8], d: Data<'a>)
    requires
        n < 0x80,
        p.len() == n,
        b@ == seq![0x12u8, n] + p,
        <Data<'a> as FromWire<'a>>::decodes_to(Wire::Len(b), d),
    ensures
        d.payload@ == p,
        d.port_num == PortNum::UnknownApp,
        !d.want_response,
        d.bitfield is None,
        d.dest == NodeId(0),
        d.source == NodeId(0),
        d.request_id == 0,
        d.reply_id == 0,
        d.emoji == 0,
{
    let s = b@;
    assert(varint_bytes(0x12) =~= seq![0x12u8]);
    assert(varint_bytes(n as u32) =~= seq![n]);
    assert(s =~= varint_bytes(0x12) + (seq![n] + p));
    lemma_varint_roundtrip(0x12, seq![n] + p);
    assert(s.skip(1) =~= varint_bytes(n as u32) + p);
    lemma_varint_roundtrip(n as u32, p);
    lemma_data_tag_values();
    assert(varint_read(s) == Some((0x12u32, 1nat)));
    assert(field_id(s) == 2);
    assert(field_type(s) == WireType::Len);
    assert(varint_read(s.skip(1)) == Some((n as u32, 1nat)));
    assert(wire_read_len(s.skip(1), WireType::Len) == 1 + n);
    assert(field_len(s) == s.len());
    assert(s.skip(field_len(s) as int) =~= Seq::<u8>::empty());
    assert(field_body(s) =~= s.skip(1));
    assert(s.skip(1).subrange(1, 1 + n) =~= p);
    let a = data_apply(data_defaults(), s);
    assert(a.1 == p);
    assert(data_fold(s, data_defaults()) == data_fold(Seq::<u8>::empty(), a));
}

/// One field of a message read back in a fold: a field written from a fixed
/// 32-bit payload `v` under number `id` gives `v` to the slot of `id`.
proof fn lemma_fold_u32_field(id: usize, v: u32, rest: Seq<u8>, acc: DataFields)
    requires
        4 <= id <= 8,
    ensures
        data_fold(field_bytes(id, u32_payload(v)) + rest, acc) == data_fold(
            rest,
            if v == 0 {
                acc
            } else if id == 4 {
                (acc.0, acc.1, acc.2, NodeId(v), acc.4, acc.5, acc.6, acc.7, acc.8)
            } else if id == 5 {
                (acc.0, acc.1, acc.2, acc.3, NodeId(v), acc.5, acc.6, acc.7, acc.8)
            } else if id == 6 {
                (acc.0, acc.1, acc.2, acc.3, acc.4, v, acc.6, acc.7, acc.8)
            } else if id == 7 {
                (acc.0, acc.1, acc.2, acc.3, acc.4, acc.5, v, acc.7, acc.8)
            } else {
                (acc.0, acc.1, acc.2, acc.3, acc.4, acc.5, acc.6, v, acc.8)
            },
        ),
{
    lemma_fold_field(id, u32_payload(v), rest, acc);
    lemma_u32_roundtrip(v, rest);
}

/// The port field read back in a fold: it sets the port.
proof fn lemma_fold_port(v: PortNum, rest: Seq<u8>, acc: DataFields)
    requires
        acc.0 == PortNum::UnknownApp,
    ensures
        data_fold(field_bytes(1, port_num_payload(v)) + rest, acc) == data_fold(
            rest,
            (v, acc.1, acc.2, acc.3, acc.4, acc.5, acc.6, acc.7, acc.8),
        ),
{
    lemma_port_num_injective(v, PortNum::UnknownApp);
    lemma_port_num_roundtrip(v);
    let pv = port_num_value(v);
    lemma_fold_field(1, port_num_payload(v), rest, acc);
    if pv != 0 {
        assert((pv as i32) as u32 == pv);
        lemma_varint_roundtrip(pv, rest);
    }
}

/// The want-response field read back in a fold: it sets the flag.
proof fn lemma_fold_want_response(v: bool, rest: Seq<u8>, acc: DataFields)
    requires
        !acc.2,
    ensures
        data_fold(field_bytes(3, bool_payload(v)) + rest, acc) == data_fold(
            rest,
            (acc.0, acc.1, v, acc.3, acc.4, acc.5, acc.6, acc.7, acc.8),
        ),
{
    lemma_fold_field(3, bool_payload(v), rest, acc);
    if v {
        lemma_varint_roundtrip(1, rest);
    }
}

/// The bitfield read back in a fold: it sets the bitfield.
proof fn lemma_fold_bitfield(v: Option<u32>, rest: Seq<u8>, acc: DataFields)
    requires
        acc.8 is None,
    ensures
        data_fold(field_bytes(9, option_u32_payload(v)) + rest, acc) == data_fold(
            rest,
            (acc.0, acc.1, acc.2, acc.3, acc.4, acc.5, acc.6, acc.7, v),
        ),
{
    lemma_fold_field(9, option_u32_payload(v), rest, acc);
    if let Some(x) = v {
        assert((x as i32) as u32 == x) by (bit_vector);
        lemma_varint_roundtrip(x, rest);
    }
}

/// What `to_wire` writes after its length prefix reads back as the message it
/// came from, for a message without payload bytes: decoding the fields that
/// `to_wire` writes gives back every field. (A payload's length prefix counts
/// its own bytes, so a non-empty payload does not read back.)
#[verifier::rlimit(60)]
pub proof fn lemma_data_body_roundtrip<'a>(d: Data<'a>, b: &'a [u8], e: Data<'a>)
    requires
        d.payload@.len() == 0,
        b@ == data_body(d),
        <Data<'a> as FromWire<'a>>::decodes_to(Wire::Len(b), e),
    ensures
        e.port_num == d.port_num,
        e.payload@ == d.payload@,
        e.want_response == d.want_response,
        e.dest == d.dest,
        e.source == d.source,
        e.request_id == d.request_id,
        e.reply_id == d.reply_id,
        e.emoji == d.emoji,
        e.bitfield == d.bitfield,
{
    let f1 = field_bytes(1, port_num_payload(d.port_num));
    let f2 = field_bytes(2, bytes_payload(d.payload));
    let f3 = field_bytes(3, bool_payload(d.want_response));
    let f4 = field_bytes(4, node_id_payload(d.dest));
    let f5 = field_bytes(5, node_id_payload(d.source));
    let f6 = field_bytes(6, u32_payload(d.request_id));
    let f7 = field_bytes(7, u32_payload(d.reply_id));
    let f8 = field_bytes(8, u32_payload(d.emoji));
    let f9 = field_bytes(9, option_u32_payload(d.bitfield));
    let e0 = Seq::<u8>::empty();
    let r9 = f9 + e0;
    let r8 = f8 + r9;
    let r7 = f7 + r8;
    let r6 = f6 + r7;
    let r5 = f5 + r6;
    let r4 = f4 + r5;
    let r3 = f3 + r4;
    assert(f2 =~= e0);
    assert(d.payload@ =~= e0);
    assert(b@ =~= f1 + r3);
    assert(node_id_payload(d.dest) == u32_payload::<'a>(d.dest.0));
    assert(node_id_payload(d.source) == u32_payload::<'a>(d.source.0));
    let a0 = data_defaults();
    let a1 = (d.port_num, a0.1, a0.2, a0.3, a0.4, a0.5, a0.6, a0.7, a0.8);
    lemma_fold_port(d.port_num, r3, a0);
    let a3 = (a1.0, a1.1, d.want_response, a1.3, a1.4, a1.5, a1.6, a1.7, a1.8);
    lemma_fold_want_response(d.want_response, r4, a1);
    let a4 = (a3.0, a3.1, a3.2, d.dest, a3.4, a3.5, a3.6, a3.7, a3.8);
    lemma_fold_u32_field(4, d.dest.0, r5, a3);
    let a5 = (a4.0, a4.1, a4.2, a4.3, d.source, a4.5, a4.6, a4.7, a4.8);
    lemma_fold_u32_field(5, d.source.0, r6, a4);
    let a6 = (a5.0, a5.1, a5.2, a5.3, a5.4, d.request_id, a5.6, a5.7, a5.8);
    lemma_fold_u32_field(6, d.request_id, r7, a5);
    let a7 = (a6.0, a6.1, a6.2, a6.3, a6.4, a6.5, d.reply_id, a6.7, a6.8);
    lemma_fold_u32_field(7, d.reply_id, r8, a6);
    let a8 = (a7.0, a7.1, a7.2, a7.3, a7.4, a7.5, a7.6, d.emoji, a7.8);
    lemma_fold_u32_field(8, d.emoji, r9, a7);
    let a9 = (a8.0, a8.1, a8.2, a8.3, a8.4, a8.5, a8.6, a8.7, d.bitfield);
    lemma_fold_bitfield(d.bitfield, e0, a8);
    assert(data_fields(e) == a9);
}

/// A message whose only field that is not at its default is its payload `p`
/// is written as the tag byte 0x12 (field 2, a byte string), the length
/// `wire_len` counts for the payload (its own length prefix and its bytes) as
/// a varint, and the bytes of `p`.
pub proof fn lemma_data_body_payload_only(d: Data)
    requires
        d.payload@.len() > 0,
        d.port_num == PortNum::UnknownApp,
        !d.want_response,
        d.dest == NodeId(0),
        d.source == NodeId(0),
        d.request_id == 0,
        d.reply_id == 0,
        d.emoji == 0,
        d.bitfield is None,
    ensures
        data_body(d) == seq![0x12u8] + varint_bytes((slice_wire_len(d.payload@.len()) as i32) as u32)
            + d.payload@,
{
    assert(varint_bytes(tag_of(2, WireType::Len)) =~= seq![0x12u8]) by {
        lemma_data_tag_values();
    }
    lemma_port_num_injective(PortNum::UnknownApp, PortNum::UnknownApp);
    assert(data_body(d) =~= seq![0x12u8] + varint_bytes(
        (slice_wire_len(d.payload@.len()) as i32) as u32,
    ) + d.payload@);
}

/// A message whose only field that is not at its default is a fixed 32-bit
/// field `v` is written as that field's tag byte and the four bytes of `v`,
/// least significant first: 0x25 for the destination, 0x2D for the source,
/// 0x35 for the request id, 0x3D for the reply id, 0x45 for the emoji.
pub proof fn lemma_data_body_fixed32_only(d: Data, tag: u8, v: u32)
    requires
        v != 0,
        d.payload@.len() == 0,
        d.port_num == PortNum::UnknownApp,
        !d.want_response,
        d.bitfield is None,
        tag == 0x25 || tag == 0x2D || tag == 0x35 || tag == 0x3D || tag == 0x45,
        d.dest == NodeId(if tag == 0x25 { v } else { 0 }),
        d.source == NodeId(if tag == 0x2D { v } else { 0 }),
        d.request_id == (if tag == 0x35 { v } else { 0 }),
        d.reply_id == (if tag == 0x3D { v } else { 0 }),
        d.emoji == (if tag == 0x45 { v } else { 0 }),
    ensures
        data_body(d) == seq![tag] + u32_le_bytes(v),
{
    lemma_data_tag_values();
    assert(varint_bytes(tag as u32) =~= seq![tag]);
    assert(data_body(d) =~= seq![tag] + u32_le_bytes(v));
}

/// For a message without payload bytes, `wire_len` is the length of the
/// fields `to_wire` writes, after the length of that number as a varint: each
/// field counts its tag and payload bytes exactly.
pub proof fn lemma_data_len_counts_body(d: Data)
    requires
        d.payload@.len() == 0,
    ensures
        data_fields_len(d) == data_body(d).len(),
        data_len(d) == varint_bytes((data_body(d).len() as i32) as u32).len() + data_body(d).len(),
{
    assert(field_bytes(1, port_num_payload(d.port_num)).len() == with_tag(
        d.port_num.encoded_len(),
    )) by {
        lemma_port_num_injective(d.port_num, PortNum::UnknownApp);
        let pv = port_num_value(d.port_num);
        assert((pv as i32) as u32 == pv);
        lemma_field_bytes_len(1, port_num_payload(d.port_num), d.port_num.encoded_len());
    }
    assert(field_bytes(3, bool_payload(d.want_response)).len() == with_tag(
        d.want_response.encoded_len(),
    )) by {
        lemma_field_bytes_len(3, bool_payload(d.want_response), d.want_response.encoded_len());
    }
    assert(field_bytes(4, node_id_payload(d.dest)).len() == with_tag(d.dest.encoded_len())) by {
        lemma_u32_roundtrip(d.dest.0, Seq::empty());
        lemma_field_bytes_len(4, node_id_payload(d.dest), d.dest.encoded_len());
    }
    assert(field_bytes(5, node_id_payload(d.source)).len() == with_tag(d.source.encoded_len()))
        by {
        lemma_u32_roundtrip(d.source.0, Seq::empty());
        lemma_field_bytes_len(5, node_id_payload(d.source), d.source.encoded_len());
    }
    assert(field_bytes(6, u32_payload(d.request_id)).len() == with_tag(
        d.request_id.encoded_len(),
    )) by {
        lemma_u32_roundtrip(d.request_id, Seq::empty());
        lemma_field_bytes_len(6, u32_payload(d.request_id), d.request_id.encoded_len());
    }
    assert(field_bytes(7, u32_payload(d.reply_id)).len() == with_tag(d.reply_id.encoded_len()))
        by {
        lemma_u32_roundtrip(d.reply_id, Seq::empty());
        lemma_field_bytes_len(7, u32_payload(d.reply_id), d.reply_id.encoded_len());
    }
    assert(field_bytes(8, u32_payload(d.emoji)).len() == with_tag(d.emoji.encoded_len())) by {
        lemma_u32_roundtrip(d.emoji, Seq::empty());
        lemma_field_bytes_len(8, u32_payload(d.emoji), d.emoji.encoded_len());
    }
    assert(field_bytes(9, option_u32_payload(d.bitfield)).len() == with_tag(
        d.bitfield.encoded_len(),
    )) by {
        lemma_field_bytes_len(9, option_u32_payload(d.bitfield), d.bitfield.encoded_len());
    }
}

} // verus!
