use ersha::edge::Reading;

#[test]
fn reading_bytes_layout() {
    let r = Reading::new(7, 2, 0x13, 0x0403_0201, 0x0000_01f4);
    assert_eq!(r.to_bytes(), [7, 2, 0x13, 0x01, 0x02, 0x03, 0x04, 0xf4, 0x01, 0x00, 0x00]);
    assert_eq!(Reading::BYTE_LEN, 11);
}

#[test]
fn reading_bytes_extremes() {
    let r = Reading::new(255, 0, 0, u32::MAX, 0);
    assert_eq!(r.to_bytes(), [255, 0, 0, 255, 255, 255, 255, 0, 0, 0, 0]);
}
