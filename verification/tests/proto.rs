use meshtastic_node::cursor::Cursor;
use meshtastic_node::proto::{FromWire, ReadWire, ToWire, Wire, WireType, WriteWire};

fn written(w: &Wire, cap: usize) -> Vec<u8> {
    let mut buf = vec![0u8; cap];
    let used;
    {
        let mut c = Cursor::<&mut [u8]>::new(&mut buf);
        w.write(&mut c);
        used = cap - c.len();
    }
    buf.truncate(used);
    buf
}

#[test]
fn wire_types_and_numbers() {
    assert_eq!(WireType::from_u8(0), Some(WireType::VarInt));
    assert_eq!(WireType::from_u8(1), Some(WireType::Fixed64));
    assert_eq!(WireType::from_u8(2), Some(WireType::Len));
    assert_eq!(WireType::from_u8(5), Some(WireType::Fixed32));
    assert_eq!(WireType::from_u8(3), None);
    assert_eq!(WireType::from_u8(7), None);
    for t in [WireType::VarInt, WireType::Fixed64, WireType::Len, WireType::Fixed32] {
        assert_eq!(WireType::from_u8(t.as_u8()), Some(t));
    }
}

#[test]
fn scalar_wires_write_len_bytes_and_read_back() {
    let cases = [Wire::VarInt(300), Wire::VarInt(-5), Wire::Fixed64(0x0102_0304_0506_0708), Wire::Fixed32(0xCAFE_BABE)];
    for w in cases.iter() {
        let bytes = written(w, 16);
        assert_eq!(bytes.len(), w.len());
        let mut c = Cursor::<&[u8]>::new(&bytes);
        let back = Wire::read(&mut c, w.ty());
        assert_eq!(c.len(), 0);
        match (w, back) {
            (Wire::VarInt(a), Wire::VarInt(b)) => assert_eq!(*a, b),
            (Wire::Fixed64(a), Wire::Fixed64(b)) => assert_eq!(*a, b),
            (Wire::Fixed32(a), Wire::Fixed32(b)) => assert_eq!(*a, b),
            _ => panic!("wire type changed"),
        }
    }
    assert_eq!(written(&Wire::Fixed32(1), 8), vec![1, 0, 0, 0]);
    assert_eq!(written(&Wire::VarInt(150), 8), vec![0x96, 0x01]);
}

#[test]
fn byte_string_wire_announces_its_field_length() {
    let payload = [7u8, 8, 9];
    let w = Wire::Len(&payload);
    // The announced length counts the bytes' own length prefix.
    assert_eq!(written(&w, 16), vec![4, 7, 8, 9]);
    assert_eq!(w.len(), 5);
    let empty: [u8; 0] = [];
    let e = Wire::Len(&empty);
    assert_eq!(written(&e, 4), vec![0]);
    assert_eq!(e.len(), 1);
}

#[test]
fn reading_a_byte_string_wire() {
    let bytes = [3u8, 1, 2, 3, 4];
    let mut c = Cursor::<&[u8]>::new(&bytes);
    let w = Wire::read(&mut c, WireType::Len);
    assert_eq!(w.ty(), WireType::Len);
    assert_eq!(w.to_len(), Some(&[1u8, 2, 3][..]));
    assert_eq!(c.get_buf(), &[4]);
}

#[test]
fn field_roundtrip_through_tags() {
    let mut buf = [0u8; 32];
    {
        let mut c = Cursor::<&mut [u8]>::new(&mut buf);
        c.write_wire(1, Wire::VarInt(42));
        c.write_wire(6, Wire::Fixed32(0x0102_0304));
        c.write_wire(20, Wire::Fixed64(9));
    }
    assert_eq!(&buf[..2], &[0x08, 42]);
    let mut r = Cursor::<&[u8]>::new(&buf);
    let (id, w) = r.read_wire();
    assert_eq!(id, 1);
    assert_eq!(w.to_var_int(), Some(42));
    let (id, w) = r.read_wire();
    assert_eq!(id, 6);
    assert_eq!(w.to_fixed32(), Some(0x0102_0304));
    let (id, w) = r.read_wire();
    assert_eq!(id, 20);
    assert_eq!(w.to_fixed64(), Some(9));
}

#[test]
fn wire_accessors() {
    assert_eq!(Wire::VarInt(3).to_var_int(), Some(3));
    assert_eq!(Wire::Fixed32(3).to_var_int(), None);
    assert_eq!(Wire::Fixed64(4).to_fixed64(), Some(4));
    assert_eq!(Wire::VarInt(4).to_fixed64(), None);
    assert_eq!(Wire::Fixed32(5).to_fixed32(), Some(5));
    assert_eq!(Wire::Fixed64(5).to_fixed32(), None);
    assert_eq!(Wire::VarInt(6).expect_var_int("f"), 6);
    assert_eq!(Wire::Fixed64(7).expect_fixed64("f"), 7);
    assert_eq!(Wire::Fixed32(8).expect_fixed32("f"), 8);
    let data = [1u8, 2];
    assert_eq!(Wire::Len(&data).expect_len("f"), &[1, 2]);
    assert_eq!(Wire::Len(&data).to_len_mut(), None);
    assert_eq!(Wire::VarInt(1).to_len(), None);
    let mut m = [3u8, 4];
    assert_eq!(Wire::LenMut(&mut m).to_len_mut(), Some(&[3u8, 4][..]));
    let mut m2 = [5u8];
    assert_eq!(Wire::LenMut(&mut m2).to_len(), Some(&[5u8][..]));
    let mut m3 = [6u8];
    let r = Wire::LenMut(&mut m3).expect_len_mut("f");
    r[0] = 9;
    assert_eq!(m3, [9]);
}

#[test]
fn field_values_to_and_from_wires() {
    let mut buf = [0u8; 4];
    let mut c = Cursor::<&mut [u8]>::new(&mut buf);
    assert!(true.to_wire(&mut c).is_some());
    assert!(false.to_wire(&mut c).is_none());
    assert_eq!(true.wire_len(), 1);
    assert_eq!(false.wire_len(), 0);
    assert!(bool::from_wire(Wire::VarInt(1), "b"));
    assert!(!bool::from_wire(Wire::VarInt(0), "b"));
    assert!(0u32.to_wire(&mut c).is_none());
    assert_eq!(7u32.to_wire(&mut c).and_then(|w| w.to_fixed32()), Some(7));
    assert_eq!(7u32.wire_len(), 4);
    assert_eq!(u32::from_wire(Wire::Fixed32(7), "u"), 7);
    assert!(0u64.to_wire(&mut c).is_none());
    assert_eq!(9u64.to_wire(&mut c).and_then(|w| w.to_fixed64()), Some(9));
    assert_eq!(9u64.wire_len(), 8);
    assert_eq!(u64::from_wire(Wire::Fixed64(9), "u"), 9);
    assert!(None::<u32>.to_wire(&mut c).is_none());
    assert_eq!(Some(300u32).to_wire(&mut c).and_then(|w| w.to_var_int()), Some(300));
    assert_eq!(Some(300u32).wire_len(), 2);
    assert_eq!(None::<u32>.wire_len(), 0);
    assert_eq!(<Option<u32>>::from_wire(Wire::VarInt(-1), "o"), Some(u32::MAX));
    let bytes: &[u8] = &[1, 2, 3];
    assert_eq!(bytes.wire_len(), 4);
    assert_eq!(bytes.to_wire(&mut c).and_then(|w| w.to_len()), Some(&[1u8, 2, 3][..]));
    let none: &[u8] = &[];
    assert!(none.to_wire(&mut c).is_none());
    assert_eq!(none.wire_len(), 0);
    assert_eq!(<&[u8]>::from_wire(Wire::Len(bytes), "s"), &[1, 2, 3]);
}

#[test]
fn empty_byte_string_wire_reads_back() {
    let empty: [u8; 0] = [];
    let mut bytes = written(&Wire::Len(&empty), 4);
    bytes.push(0x55);
    let mut c = Cursor::<&[u8]>::new(&bytes);
    let w = Wire::read(&mut c, WireType::Len);
    assert_eq!(w.to_len(), Some(&[][..]));
    assert_eq!(c.get_buf(), &[0x55]);
}
