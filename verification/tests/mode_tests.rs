use picm::mode::PCMMode;

#[test]
fn pal_resolution_is_supported() {
    let m = PCMMode::for_resolution(720, 576).unwrap();
    assert_eq!(m.screen_width, 720);
    assert_eq!(m.screen_height, 576);
    assert_eq!(m.field_rate, 50);
    assert_eq!(m.visible_pcm_field_height, 288);
    assert_eq!(m.visible_pcm_data_field_height, 287);
    assert_eq!(m.pcm_data_lines_in_field, 294);
}

#[test]
fn ntsc_resolution_is_supported() {
    let m = PCMMode::for_resolution(720, 480).unwrap();
    assert_eq!(m.field_rate, 60);
    assert_eq!(m.visible_pcm_field_height, 240);
    assert_eq!(m.visible_pcm_data_field_height, 239);
    assert_eq!(m.pcm_data_lines_in_field, 245);
}

#[test]
fn other_resolutions_are_rejected() {
    assert!(PCMMode::for_resolution(640, 480).is_none());
    assert!(PCMMode::for_resolution(720, 575).is_none());
    assert!(PCMMode::for_resolution(1920, 1080).is_none());
}

#[test]
fn line_counter_walks_one_field_and_wraps() {
    // Scenario: one field of encoder lines; the drawable rows are queued,
    // the overscan rows are consumed but dropped, and the counter wraps.
    let m = PCMMode::for_resolution(720, 576).unwrap();
    let mut line = 0;
    let mut enqueued = 0;
    for _ in 0..m.pcm_data_lines_in_field {
        let (enqueue, next) = m.line_step(line);
        if enqueue {
            enqueued += 1;
        }
        line = next;
    }
    assert_eq!(enqueued, m.visible_pcm_data_field_height);
    assert_eq!(line, 0);
}
