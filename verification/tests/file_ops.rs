use fetcher::content::{encode_content, text_from_bytes};
use fetcher::error::OpError;
use fetcher::platform::{launcher_command, Platform};
use fetcher::version::get_version;

#[test]
fn encode_content_is_the_utf8_bytes() {
    assert_eq!(encode_content("hello"), b"hello".to_vec());
    assert_eq!(encode_content(""), Vec::<u8>::new());
}

#[test]
fn text_from_bytes_decodes_plain_ascii() {
    assert_eq!(text_from_bytes(b"abc".to_vec()).unwrap(), "abc");
}

#[test]
fn content_round_trip_preserves_text() {
    for content in ["", "hello", "line one\nline two", "h\u{e9}llo \u{2713} \u{d55c}\u{ae00}"] {
        let bytes = encode_content(content);
        assert_eq!(text_from_bytes(bytes).unwrap(), content);
    }
}

#[test]
fn text_from_bytes_rejects_invalid_utf8() {
    let out = text_from_bytes(vec![0xff, 0xfe, 0x41]);
    assert!(matches!(out, Err(OpError::NotText)));
    let out = text_from_bytes(vec![0xc3]);
    assert!(matches!(out, Err(OpError::NotText)));
}

#[test]
fn get_version_matches_declared_version() {
    assert_eq!(get_version(), "0.1.0");
}

#[test]
fn get_version_is_deterministic() {
    assert_eq!(get_version(), get_version());
}

#[test]
fn launcher_command_per_platform() {
    assert_eq!(launcher_command(Platform::Windows), "explorer");
    assert_eq!(launcher_command(Platform::MacOs), "open");
    assert_eq!(launcher_command(Platform::Linux), "xdg-open");
}
