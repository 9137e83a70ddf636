use picm::playlist::Playlist;

#[test]
fn single_relative_item_plays_from_current_directory() {
    let mut p = Playlist::new_with_single_item(String::from("song.wav"));
    assert_eq!(p.next_file(), "./song.wav");
}

#[test]
fn single_absolute_item_keeps_its_path() {
    let mut p = Playlist::new_with_single_item(String::from("/music/song.wav"));
    assert_eq!(p.next_file(), "/music/song.wav");
}

#[test]
fn single_item_wraps_forever() {
    // Scenario: after exhausting the only file, the next read names the
    // same file again rather than failing.
    let mut p = Playlist::new_with_single_item(String::from("song.wav"));
    assert_eq!(p.next_file(), "./song.wav");
    assert_eq!(p.next_file(), "./song.wav");
    assert_eq!(p.next_file(), "./song.wav");
}

#[test]
fn m3u_lines_skip_comments_and_blanks() {
    let lines = vec![
        String::from("#EXTM3U"),
        String::from("a.wav"),
        String::from(""),
        String::from("# comment"),
        String::from("b.wav"),
    ];
    let mut p = Playlist::from_m3u_lines(String::from("/d/"), lines).unwrap();
    assert_eq!(p.next_file(), "/d/a.wav");
    assert_eq!(p.next_file(), "/d/b.wav");
    assert_eq!(p.next_file(), "/d/a.wav");
}

#[test]
fn m3u_with_no_entries_is_rejected() {
    let lines = vec![String::from("#EXTM3U"), String::from("")];
    assert!(Playlist::from_m3u_lines(String::from("."), lines).is_none());
}
