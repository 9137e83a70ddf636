use picm::audio::{flac_format_supported, path_has_extension, wav_format_supported};

#[test]
fn extension_match_is_case_insensitive() {
    assert!(path_has_extension("song.wav", ".wav"));
    assert!(path_has_extension("SONG.WAV", ".wav"));
    assert!(path_has_extension("Track.FlAc", ".flac"));
    assert!(path_has_extension("list.M3U", ".m3u"));
}

#[test]
fn extension_match_rejects_other_names() {
    assert!(!path_has_extension("song.wav", ".m3u"));
    assert!(!path_has_extension("wav", ".wav"));
    assert!(!path_has_extension("", ".wav"));
    assert!(!path_has_extension("song.wave", ".wav"));
}

#[test]
fn wav_format_check() {
    assert!(wav_format_supported(16, true, 44100, 2));
    assert!(!wav_format_supported(24, true, 44100, 2));
    assert!(!wav_format_supported(16, false, 44100, 2));
    assert!(!wav_format_supported(16, true, 48000, 2));
    assert!(!wav_format_supported(16, true, 44100, 1));
}

#[test]
fn flac_format_check() {
    assert!(flac_format_supported(16, 44100, 2));
    assert!(!flac_format_supported(24, 44100, 2));
    assert!(!flac_format_supported(16, 96000, 2));
    assert!(!flac_format_supported(16, 44100, 6));
}
