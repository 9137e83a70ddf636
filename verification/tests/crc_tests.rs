use picm::crc::{add_crc_to_data, get_crc16_ccitt_false};
use picm::raster::ctl_line_word;

#[test]
fn crc_of_zero_input() {
    // with the 0xFFFF initial register, 14 zero bytes give 0xA96A
    assert_eq!(get_crc16_ccitt_false(0, 112), 0xA96A);
}

#[test]
fn crc_standard_check_vector() {
    // CRC-16/CCITT-FALSE of the bytes "123456789"
    assert_eq!(get_crc16_ccitt_false(0x31_32_33_34_35_36_37_38_39, 72), 0x29B1);
}

#[test]
fn crc_of_one_zero_byte() {
    // the standard CRC-16/CCITT-FALSE value of a single 0x00 byte
    assert_eq!(get_crc16_ccitt_false(0, 8), 0xE1F0);
}

#[test]
fn seal_keeps_upper_bits_and_carries_crc() {
    let x: u128 = 0x0123_4567_89AB_CDEF_0123_4567_8900_0000 & !0xFFFFu128;
    let sealed = add_crc_to_data(x);
    assert_eq!(sealed & 0xFFFF, get_crc16_ccitt_false(x >> 16, 112) as u128);
    assert_eq!(sealed >> 16, x >> 16);
}

#[test]
fn seal_of_zero_word() {
    // an all-zero data word seals to the CRC of its 112 zero upper bits
    assert_eq!(add_crc_to_data(0), 0xA96A);
}

#[test]
fn ctl_word_pattern_and_seal() {
    let payload: u128 = 0xCCCCCCCCCCCCCC000000000000000000u128 | (0b0011u128 << 16);
    let w = ctl_line_word();
    assert_eq!(w >> 16, payload >> 16);
    assert_eq!(w & 0xFFFF, get_crc16_ccitt_false(w >> 16, 112) as u128);
    assert_eq!(w, add_crc_to_data(payload));
}
