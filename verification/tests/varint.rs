use meshtastic_node::cursor::Cursor;
use meshtastic_node::varint::len_of;

fn encode(v: i32) -> Vec<u8> {
    let mut buf = [0u8; 8];
    let n = len_of(v);
    {
        let mut c = Cursor::<&mut [u8]>::new(&mut buf);
        c.write_var_i32(v);
        assert_eq!(c.len(), 8 - n);
    }
    buf[..n].to_vec()
}

#[test]
fn varint_encodings() {
    assert_eq!(encode(0), vec![0x00]);
    assert_eq!(encode(1), vec![0x01]);
    assert_eq!(encode(127), vec![0x7F]);
    assert_eq!(encode(128), vec![0x80, 0x01]);
    assert_eq!(encode(300), vec![0xAC, 0x02]);
    assert_eq!(encode(-1), vec![0xFF, 0xFF, 0xFF, 0xFF, 0x0F]);
    assert_eq!(encode(i32::MIN), vec![0x80, 0x80, 0x80, 0x80, 0x08]);
}

#[test]
fn varint_lengths() {
    assert_eq!(len_of(0), 1);
    assert_eq!(len_of(0x7F), 1);
    assert_eq!(len_of(0x80), 2);
    assert_eq!(len_of(0x3FFF), 2);
    assert_eq!(len_of(0x4000), 3);
    assert_eq!(len_of(0x1F_FFFF), 3);
    assert_eq!(len_of(0x20_0000), 4);
    assert_eq!(len_of(0x0FFF_FFFF), 4);
    assert_eq!(len_of(0x1000_0000), 5);
    assert_eq!(len_of(i32::MAX), 5);
    assert_eq!(len_of(-1), 5);
}

#[test]
fn varint_roundtrip() {
    for v in [0, 1, 63, 127, 128, 255, 300, 16383, 16384, 2_097_151, 2_097_152, 268_435_455, 268_435_456, i32::MAX, -1, -2, -300, i32::MIN] {
        let mut bytes = encode(v);
        bytes.push(0xEE);
        let mut c = Cursor::<&[u8]>::new(&bytes);
        assert_eq!(c.read_var_i32(), v);
        assert_eq!(c.get_buf(), &[0xEE]);
    }
}

#[test]
fn varint_read_stops_at_the_last_byte() {
    let bytes = [0x96u8, 0x01, 0x05];
    let mut c = Cursor::<&[u8]>::new(&bytes);
    assert_eq!(c.read_var_i32(), 150);
    assert_eq!(c.len(), 1);
}

#[test]
fn varint_of_five_bytes_keeps_low_bits() {
    let bytes = [0xFFu8, 0xFF, 0xFF, 0xFF, 0x7F];
    let mut c = Cursor::<&[u8]>::new(&bytes);
    assert_eq!(c.read_var_i32(), -1);
    assert_eq!(c.len(), 0);
}
