use imagemeta::bits::{bytes_eq, DataReader};

/// One carrier byte per bit of `b`, most-significant bit first.
fn carriers_of_byte(b: u8) -> Vec<u8> {
    let mut v = Vec::new();
    for i in (0..8).rev() {
        v.push((b >> i) & 1);
    }
    v
}

fn carriers_of_bytes(bs: &[u8]) -> Vec<u8> {
    let mut v = Vec::new();
    for &b in bs {
        v.extend(carriers_of_byte(b));
    }
    v
}

#[test]
fn read_bit_takes_lsb_and_advances() {
    let mut r = DataReader::new(vec![1, 0, 255, 2]);
    assert_eq!(r.read_bit(), 1);
    assert_eq!(r.read_bit(), 0);
    assert_eq!(r.read_bit(), 1);
    assert_eq!(r.read_bit(), 0);
}

#[test]
fn read_byte_composes_msb_first() {
    let mut r = DataReader::new(carriers_of_byte(0xB1));
    assert_eq!(r.read_byte(), 0xB1);
}

#[test]
fn read_bytes_returns_sequential_bytes() {
    let mut r = DataReader::new(carriers_of_bytes(&[0xDE, 0xAD, 0x07]));
    assert_eq!(r.read_bytes(3), vec![0xDE, 0xAD, 0x07]);
}

#[test]
fn read_int32_is_big_endian() {
    let mut r = DataReader::new(carriers_of_bytes(&[0x00, 0x00, 0x01, 0x20]));
    assert_eq!(r.read_int32(), 288);
}

#[test]
fn read_int32_reads_negative_values() {
    let mut r = DataReader::new(carriers_of_bytes(&[0xFF, 0xFF, 0xFF, 0xFF]));
    assert_eq!(r.read_int32(), -1);
    let mut r = DataReader::new(carriers_of_bytes(&[0x80, 0x00, 0x00, 0x00]));
    assert_eq!(r.read_int32(), i32::MIN);
}

#[test]
fn bytes_eq_compares_contents() {
    assert!(bytes_eq(&vec![1, 2, 3], &vec![1, 2, 3]));
    assert!(!bytes_eq(&vec![1, 2, 3], &vec![1, 2, 4]));
    assert!(!bytes_eq(&vec![1, 2], &vec![1, 2, 3]));
    assert!(bytes_eq(&vec![], &vec![]));
}
