use meshtastic_node::cursor::Cursor;

#[test]
fn read_integers_in_both_byte_orders() {
    let data = [1u8, 2, 3, 4, 5, 6, 7, 8, 9, 10, 11, 12, 13, 14, 15, 16, 17, 18, 19, 20, 21, 22, 23, 24, 25, 26, 27, 28, 29];
    let mut c = Cursor::<&[u8]>::new(&data);
    assert_eq!(c.len(), 29);
    assert_eq!(c.read_u8(), 1);
    assert_eq!(c.read_u16_be(), 0x0203);
    assert_eq!(c.read_u16_le(), 0x0504);
    assert_eq!(c.read_u32_be(), 0x0607_0809);
    assert_eq!(c.read_u32_le(), 0x0d0c_0b0a);
    assert_eq!(c.read_u64_be(), 0x0e0f_1011_1213_1415);
    assert_eq!(c.read_u64_le(), 0x1d1c_1b1a_1918_1716);
    assert_eq!(c.len(), 0);
    assert!(!c.has_next());
}

#[test]
fn take_slice_and_split_chunk_advance() {
    let data = [9u8, 8, 7, 6, 5];
    let mut c = Cursor::<&[u8]>::new(&data);
    assert!(c.has_next());
    assert_eq!(c.take_slice(2), &[9, 8]);
    assert_eq!(c.split_off_chunk::<2>(), &[7, 6]);
    assert_eq!(c.get_buf(), &[5]);
    assert_eq!(c.read_bytes(1), &[5]);
    assert_eq!(c.into_inner(), &[] as &[u8]);
}

#[test]
fn write_then_read_gives_values_back() {
    let mut buf = [0u8; 29];
    {
        let mut c = Cursor::<&mut [u8]>::new(&mut buf);
        c.write_u8(0xAB);
        c.write_u16_be(0x1234);
        c.write_u16_le(0x1234);
        c.write_u32_be(0xDEAD_BEEF);
        c.write_u32_le(0xDEAD_BEEF);
        c.write_u64_be(0x0102_0304_0506_0708);
        c.write_u64_le(0x0102_0304_0506_0708);
        assert_eq!(c.len(), 0);
    }
    assert_eq!(&buf[..5], &[0xAB, 0x12, 0x34, 0x34, 0x12]);
    assert_eq!(&buf[5..13], &[0xDE, 0xAD, 0xBE, 0xEF, 0xEF, 0xBE, 0xAD, 0xDE]);
    let mut r = Cursor::<&[u8]>::new(&buf);
    assert_eq!(r.read_u8(), 0xAB);
    assert_eq!(r.read_u16_be(), 0x1234);
    assert_eq!(r.read_u16_le(), 0x1234);
    assert_eq!(r.read_u32_be(), 0xDEAD_BEEF);
    assert_eq!(r.read_u32_le(), 0xDEAD_BEEF);
    assert_eq!(r.read_u64_be(), 0x0102_0304_0506_0708);
    assert_eq!(r.read_u64_le(), 0x0102_0304_0506_0708);
}

#[test]
fn write_bytes_and_windows() {
    let mut buf = [0u8; 8];
    {
        let mut c = Cursor::<&mut [u8]>::new(&mut buf);
        c.write_bytes(&[1, 2, 3]);
        let w = c.take_slice_mut(2);
        w[0] = 4;
        w[1] = 5;
        let chunk = c.split_off_chunk_mut::<1>();
        chunk[0] = 6;
        assert_eq!(c.len(), 2);
        let rest = c.into_inner_mut();
        rest[1] = 8;
    }
    assert_eq!(buf, [1, 2, 3, 4, 5, 6, 0, 8]);
}

#[test]
fn reading_through_a_writing_cursor_keeps_bytes() {
    let mut buf = [0x78u8, 0x56, 0x34, 0x12, 0x99];
    {
        let mut c = Cursor::<&mut [u8]>::new(&mut buf);
        assert_eq!(c.read_u32_le(), 0x1234_5678);
        assert_eq!(c.read_u8(), 0x99);
    }
    assert_eq!(buf, [0x78, 0x56, 0x34, 0x12, 0x99]);
}

#[test]
fn buffer_of_a_writing_cursor() {
    let mut buf = [0u8; 3];
    {
        let mut c = Cursor::<&mut [u8]>::new(&mut buf);
        c.write_u8(1);
        let b = c.get_buf_mut();
        assert_eq!(b.len(), 2);
        b[0] = 7;
    }
    assert_eq!(buf, [1, 7, 0]);
}
