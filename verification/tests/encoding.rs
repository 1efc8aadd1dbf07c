use file_dialog::wide::encode_utf16_nul;

#[test]
fn encode_ascii() {
    assert_eq!(encode_utf16_nul("ab"), vec![0x61, 0x62, 0]);
}

#[test]
fn encode_empty() {
    assert_eq!(encode_utf16_nul(""), vec![0]);
}

#[test]
fn encode_basic_plane() {
    // U+20AC, the euro sign, is one unit.
    assert_eq!(encode_utf16_nul("\u{20AC}"), vec![0x20AC, 0]);
}

#[test]
fn encode_surrogate_pair() {
    // U+1D11E, the treble clef, needs a surrogate pair.
    assert_eq!(encode_utf16_nul("\u{1D11E}"), vec![0xD834, 0xDD1E, 0]);
}

#[test]
fn encode_matches_host_encoder() {
    let samples = ["", "hello", "Grüße", "日本語", "a\u{10FFFF}b", "\u{FFFF}\u{E000}\u{D7FF}"];
    for s in samples {
        let mut expected: Vec<u16> = s.encode_utf16().collect();
        expected.push(0);
        assert_eq!(encode_utf16_nul(s), expected);
    }
}
