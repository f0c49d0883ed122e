use nes_emu::bits::{get_bit, set_bit};

#[test]
fn test_valid_get_bit() {
    let bytes: u8 = 0b1001_1010;
    assert_eq!(get_bit(bytes, 0), false);
    assert_eq!(get_bit(bytes, 1), true);
}

#[test]
fn test_valid_set_bit() {
    let mut bytes: u8 = 0b1001_1010;
    set_bit(&mut bytes, 2, true);
    assert_eq!(bytes, 0b1001_1110);

    let mut bytes: u8 = 0b1001_1010;
    set_bit(&mut bytes, 7, false);
    assert_eq!(bytes, 0b0001_1010);

    let mut bytes: u8 = 0b1001_1010;
    set_bit(&mut bytes, 0, false);
    assert_eq!(bytes, 0b1001_1010);

    let mut bytes: u8 = 0b1001_1010;
    set_bit(&mut bytes, 1, true);
    assert_eq!(bytes, 0b1001_1010);
}

#[test]
fn get_bit_reads_every_position() {
    let b: u8 = 0b1000_0001;
    assert!(get_bit(b, 0));
    assert!(get_bit(b, 7));
    for i in 1..7u8 {
        assert!(!get_bit(b, i));
    }
}
