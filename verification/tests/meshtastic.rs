use meshtastic_node::cursor::Cursor;
use meshtastic_node::meshtastic::{
    Data, DeviceRole, HardwareModel, MestasticHeader, NodeId, Nonce, PacketFlags, PortNum, NODE_BROADCAST,
};
use meshtastic_node::proto::{FromWire, ToWire, Wire};

fn sample_header() -> MestasticHeader {
    MestasticHeader {
        to: NodeId(0xFFFF_FFFF),
        from: NodeId(0x1234_5678),
        packet_id: 0xA1B2_C3D4,
        flags: PacketFlags::new(3, true, false, 3),
        channel: 8,
        next_hop: 0x11,
        relay_node: 0x22,
    }
}

#[test]
fn header_bytes_layout() {
    let h = sample_header();
    let mut buf = [0u8; 20];
    {
        let mut c = Cursor::<&mut [u8]>::new(&mut buf);
        h.write(&mut c);
        assert_eq!(c.len(), 4);
    }
    assert_eq!(
        &buf[..16],
        &[0xFF, 0xFF, 0xFF, 0xFF, 0x78, 0x56, 0x34, 0x12, 0xD4, 0xC3, 0xB2, 0xA1, 0x6B, 8, 0x11, 0x22]
    );
}

#[test]
fn header_roundtrip() {
    let h = sample_header();
    let mut buf = [0u8; 16];
    {
        let mut c = Cursor::<&mut [u8]>::new(&mut buf);
        h.write(&mut c);
    }
    let mut c = Cursor::<&mut [u8]>::new(&mut buf);
    let back = MestasticHeader::read(&mut c);
    assert_eq!(back, h);
    assert_eq!(c.len(), 0);
}

#[test]
fn broadcast_header() {
    let mut h = sample_header();
    assert!(h.is_broadcast());
    h.to = NodeId(7);
    assert!(!h.is_broadcast());
    assert_eq!(NodeId::broadcast(), NodeId(NODE_BROADCAST));
    assert_eq!(NodeId::none(), NodeId(0));
    assert_eq!(NodeId::default(), NodeId(0));
}

#[test]
fn packet_flags_fields() {
    let f = PacketFlags::new(5, true, true, 7);
    assert_eq!(f.0, 0b1111_1101);
    assert_eq!(f.get_hop_limit(), 5);
    assert_eq!(f.get_want_ack(), 1);
    assert_eq!(f.get_via_mqtt(), 1);
    assert_eq!(f.get_hop_start(), 7);
    let g = PacketFlags::new(9, false, true, 2);
    assert_eq!(g.get_hop_limit(), 1);
    assert_eq!(g.get_want_ack(), 0);
    assert_eq!(g.get_via_mqtt(), 1);
    assert_eq!(g.get_hop_start(), 2);
    let mut h = PacketFlags(0xFF);
    h.set_want_ack(0);
    assert_eq!(h.0, 0xF7);
    h.set_hop_limit(0);
    assert_eq!(h.0, 0xF0);
    h.set_hop_start(1);
    assert_eq!(h.0, 0x30);
    h.set_via_mqtt(0);
    assert_eq!(h.0, 0x20);
}

#[test]
fn nonce_bytes() {
    let n = Nonce { packet_id: 0x0403_0201, extra: 0, from: NodeId(0x0807_0605), pad: 0 };
    assert_eq!(n.as_ctr_bytes(), [1, 2, 3, 4, 0, 0, 0, 0, 5, 6, 7, 8, 0, 0, 0, 0]);
    assert_eq!(n.as_ccm_bytes(), [1, 2, 3, 4, 0, 0, 0, 0, 5, 6, 7, 8, 0]);
}

#[test]
fn enum_numbers() {
    assert_eq!(PortNum::TextMessageApp.to_u32(), 1);
    assert_eq!(PortNum::Max.to_u32(), 511);
    assert_eq!(PortNum::from_u32(67), Some(PortNum::TelemetryApp));
    assert_eq!(PortNum::from_u32(13), None);
    assert_eq!(PortNum::default(), PortNum::UnknownApp);
    assert_eq!(HardwareModel::from_u32(255), Some(HardwareModel::PrivateHw));
    assert_eq!(HardwareModel::from_u32(127), None);
    assert_eq!(HardwareModel::RAK4631.to_u32(), 9);
    assert_eq!(HardwareModel::default(), HardwareModel::Unset);
    assert_eq!(DeviceRole::from_u32(12), Some(DeviceRole::ClientBase));
    assert_eq!(DeviceRole::from_u32(13), None);
    assert_eq!(DeviceRole::default(), DeviceRole::Client);
    for n in 0..600u32 {
        if let Some(p) = PortNum::from_u32(n) {
            assert_eq!(p.to_u32(), n);
        }
        if let Some(h) = HardwareModel::from_u32(n) {
            assert_eq!(h.to_u32(), n);
        }
        if let Some(r) = DeviceRole::from_u32(n) {
            assert_eq!(r.to_u32(), n);
        }
    }
}

#[test]
fn enums_and_node_ids_on_the_wire() {
    let mut buf = [0u8; 4];
    let mut c = Cursor::<&mut [u8]>::new(&mut buf);
    assert!(PortNum::UnknownApp.to_wire(&mut c).is_none());
    assert_eq!(PortNum::TextMessageApp.to_wire(&mut c).and_then(|w| w.to_var_int()), Some(1));
    assert_eq!(PortNum::PrivateApp.wire_len(), 2);
    assert_eq!(PortNum::from_wire(Wire::VarInt(4), "port"), PortNum::NodeInfoApp);
    assert_eq!(HardwareModel::from_wire(Wire::VarInt(43), "hw"), HardwareModel::HeltecV3);
    assert_eq!(DeviceRole::from_wire(Wire::VarInt(2), "role"), DeviceRole::Router);
    assert!(DeviceRole::Client.to_wire(&mut c).is_none());
    assert!(NodeId(0).to_wire(&mut c).is_none());
    assert_eq!(NodeId(5).to_wire(&mut c).and_then(|w| w.to_fixed32()), Some(5));
    assert_eq!(NodeId(5).wire_len(), 4);
    assert_eq!(NodeId::from_wire(Wire::Fixed32(9), "id"), NodeId(9));
}

#[test]
fn decode_data_message() {
    let bytes = [
        0x08, 0x01, // port_num: text message
        0x12, 0x02, b'h', b'i', // payload
        0x25, 0x04, 0x03, 0x02, 0x01, // dest
        0x48, 0x07, // bitfield
        0x08, 0x43, // port_num again: telemetry wins
    ];
    let d = Data::from_wire(Wire::Len(&bytes), "data");
    assert_eq!(d.port_num, PortNum::TelemetryApp);
    assert_eq!(d.payload, b"hi");
    assert_eq!(d.dest, NodeId(0x0102_0304));
    assert_eq!(d.source, NodeId(0));
    assert_eq!(d.bitfield, Some(7));
    assert!(!d.want_response);
    let empty: [u8; 0] = [];
    let e = Data::from_wire(Wire::Len(&empty), "data");
    assert_eq!(e.port_num, PortNum::UnknownApp);
    assert_eq!(e.payload, b"");
}

#[test]
fn encode_data_message() {
    let text: &[u8] = b"hi";
    let mut d = Data::default();
    d.port_num = PortNum::TextMessageApp;
    d.payload = text;
    d.dest = NodeId(0x0102_0304);
    assert_eq!(d.wire_len(), 12);
    let mut buf = [0u8; 16];
    {
        let mut c = Cursor::<&mut [u8]>::new(&mut buf);
        match d.to_wire(&mut c) {
            Some(Wire::LenMut(p)) => assert_eq!(p.len(), 12),
            _ => panic!("expected a payload built in the cursor"),
        }
        assert_eq!(c.len(), 4);
    }
    assert_eq!(
        &buf[..12],
        &[12, 0x08, 0x01, 0x12, 0x03, b'h', b'i', 0x25, 0x04, 0x03, 0x02, 0x01]
    );
    assert_eq!(&buf[12..], &[0, 0, 0, 0]);
}

#[test]
fn encode_default_data_message() {
    let d = Data::default();
    assert_eq!(d.wire_len(), 1);
    let mut buf = [0xAAu8; 3];
    {
        let mut c = Cursor::<&mut [u8]>::new(&mut buf);
        match d.to_wire(&mut c) {
            Some(Wire::LenMut(p)) => assert_eq!(&p[..], &[1u8][..]),
            _ => panic!("expected a payload built in the cursor"),
        }
        assert_eq!(c.len(), 2);
    }
    assert_eq!(buf, [1, 0xAA, 0xAA]);
}

#[test]
fn node_id_text() {
    assert_eq!(NodeId(0).to_text(), "NONE");
    assert_eq!(NodeId(NODE_BROADCAST).to_text(), "EVERYONE");
    assert_eq!(NodeId(0x1234_ABCD).to_text(), "!1234ABCD");
    assert_eq!(NodeId(5).to_text(), "!00000005");
}
