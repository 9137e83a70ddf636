use picm::raster::{bits_to_pixels, compose_line, ctl_line_word, get_base_line};

#[test]
fn pixels_are_bits_msb_first() {
    let w: u128 = 0x8000_0000_0000_0000_0000_0000_0000_0001;
    let px = bits_to_pixels(w);
    assert_eq!(px.len(), 128);
    assert_eq!(px[0], 1);
    assert_eq!(px[127], 1);
    for i in 1..127 {
        assert_eq!(px[i], 0);
    }
}

#[test]
fn reassembling_pixels_reproduces_the_word() {
    let words: [u128; 4] = [
        0,
        u128::MAX,
        0xDEAD_BEEF_0123_4567_89AB_CDEF_5555_AAAA,
        1,
    ];
    for &w in words.iter() {
        let px = bits_to_pixels(w);
        let mut back: u128 = 0;
        for &b in px.iter() {
            assert!(b == 0 || b == 1);
            back = (back << 1) | b as u128;
        }
        assert_eq!(back, w);
    }
}

#[test]
fn base_line_layout() {
    let line = get_base_line();
    assert_eq!(line.len(), 137);
    assert_eq!(&line[0..4], &[1, 0, 1, 0]);
    for i in 4..132 {
        assert_eq!(line[i], 0);
    }
    assert_eq!(&line[132..137], &[0, 2, 2, 2, 2]);
}

#[test]
fn ctl_raster_line_layout() {
    // Scenario: a raster line composed from the CTL word
    let ctl = ctl_line_word();
    let line = compose_line(ctl);
    assert_eq!(line.len(), 137);
    assert_eq!(&line[0..4], &[1, 0, 1, 0]);
    assert_eq!(&line[132..137], &[0, 2, 2, 2, 2]);
    for i in 0..128 {
        let bit = ((ctl >> (127 - i)) & 1) as u8;
        assert_eq!(line[4 + i as usize], bit);
    }
}
