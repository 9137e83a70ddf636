use picm::crc::add_crc_to_data;
use picm::pcm::{FIFODelayer, PCMEngine};

#[test]
fn delayer_outputs_feed_made_n_steps_ago() {
    // delay length 2: output is the feed made two steps before the latest
    let mut d = FIFODelayer::new(2);
    assert_eq!(d.get_output(), 0);
    d.feed(10);
    assert_eq!(d.get_output(), 0);
    d.feed(20);
    assert_eq!(d.get_output(), 0);
    d.feed(30);
    assert_eq!(d.get_output(), 10);
    d.feed(40);
    assert_eq!(d.get_output(), 20);
}

#[test]
fn delayer_of_length_zero_passes_through() {
    let mut d = FIFODelayer::new(0);
    d.feed(7);
    assert_eq!(d.get_output(), 7);
    d.feed(9);
    assert_eq!(d.get_output(), 9);
}

#[test]
fn first_triplet_emits_on_third_sample() {
    // Scenario: samples (1,2), (3,4), (5,6). Only delayer 0 (delay 0) has
    // warmed up, so the word carries L0 = 1: its top 14 bits are 1 >> 2 = 0
    // and its low 2 bits stand at the top of the S word. P = 1^2^3^4^5^6 = 7
    // is fed into the seventh delayer but not yet visible.
    let mut pcm = PCMEngine::new();
    assert_eq!(pcm.submit_stereo_sample([1, 2]), None);
    assert_eq!(pcm.submit_stereo_sample([3, 4]), None);
    let w = pcm.submit_stereo_sample([5, 6]).unwrap();
    assert_eq!(w >> 114, 0);
    assert_eq!((w >> 16) & 0x3FFF, 0x1000);
    assert_eq!(w, add_crc_to_data(0x1000u128 << 16));
}

#[test]
fn all_zero_samples_emit_bare_crc_words() {
    // Scenario: every triplet of (0,0) samples emits the all-zero word
    // sealed with the CRC of 112 zero bits, and 3N samples emit N words.
    let mut pcm = PCMEngine::new();
    let mut emitted = 0;
    for i in 0..300 {
        match pcm.submit_stereo_sample([0, 0]) {
            Some(w) => {
                emitted += 1;
                assert_eq!(w, 0xA96A);
                assert_eq!(i % 3, 2);
            }
            None => assert_ne!(i % 3, 2),
        }
    }
    assert_eq!(emitted, 100);
}

#[test]
fn emission_rate_is_one_word_per_triplet() {
    let mut pcm = PCMEngine::new();
    let mut emitted = 0;
    for i in 0..3 * 41 {
        let s = [(i * 7 + 1) as u16, (i * 13 + 2) as u16];
        if pcm.submit_stereo_sample(s).is_some() {
            emitted += 1;
        }
    }
    assert_eq!(emitted, 41);
}

#[test]
fn parity_word_surfaces_after_its_delay() {
    // P of the first triplet is 1^2^3^4^5^6 = 7, fed into the delayer of
    // delay length 96; it surfaces in the 97th line word: its top 14 bits
    // at bits [43:30] and its low 2 bits at the bottom of the S word.
    let mut pcm = PCMEngine::new();
    let mut words = Vec::new();
    assert_eq!(pcm.submit_stereo_sample([1, 2]), None);
    assert_eq!(pcm.submit_stereo_sample([3, 4]), None);
    words.push(pcm.submit_stereo_sample([5, 6]).unwrap());
    for _ in 0..96 {
        pcm.submit_stereo_sample([0, 0]);
        pcm.submit_stereo_sample([0, 0]);
        words.push(pcm.submit_stereo_sample([0, 0]).unwrap());
    }
    let w97 = words[96];
    assert_eq!((w97 >> 30) & 0x3FFF, 7 >> 2);
    assert_eq!((w97 >> 16) & 0x3, 7 & 0x3);
    assert_eq!(w97, add_crc_to_data((1u128 << 30) | (3u128 << 16)));
}

#[test]
fn left_and_right_words_land_in_adjacent_delayers() {
    // after 17 triplets the delay-16 delayer surfaces R0 = 2
    let mut pcm = PCMEngine::new();
    let mut last = None;
    for i in 0..17 {
        let s = if i == 0 { [1, 2] } else { [0, 0] };
        pcm.submit_stereo_sample(s);
        pcm.submit_stereo_sample([0, 0]);
        last = pcm.submit_stereo_sample([0, 0]);
    }
    let w = last.unwrap();
    // delayer 1 output is 2: top 14 bits at [113:100], low bits in S word
    assert_eq!((w >> 100) & 0x3FFF, 2 >> 2);
    assert_eq!((w >> 16) & 0x3FFF, (2 & 0x3) << 10);
}
