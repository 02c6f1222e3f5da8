use audio_meta::encoding::resolve;
use audio_meta::request::{decode_request_path, metadata_for_path, PathError};
use audio_meta::tags::ProbeTags;

fn utf16le(s: &str) -> Vec<u8> {
    s.encode_utf16().flat_map(|u| u.to_le_bytes()).collect()
}

#[test]
fn utf8_is_returned_as_is() {
    let r = resolve("{\"title\": \"日本語\"}".as_bytes());
    assert_eq!(r.text, "{\"title\": \"日本語\"}");
    assert!(!r.degraded);
    assert_eq!(resolve(b"").text, "");
}

#[test]
fn utf16le_is_decoded() {
    let bytes = utf16le("{\"title\": \"é中文\"}");
    assert!(std::str::from_utf8(&bytes).is_err());
    let r = resolve(&bytes);
    assert_eq!(r.text, "{\"title\": \"é中文\"}");
    assert!(!r.degraded);
}

#[test]
fn gbk_is_the_last_resort() {
    // "中文" in GBK; an odd length keeps it from being clean UTF-16LE.
    let bytes = [0xD6u8, 0xD0, 0xCE, 0xC4, 0x41];
    let r = resolve(&bytes);
    assert_eq!(r.text, "中文A");
    assert!(!r.degraded);
}

#[test]
fn undecodable_bytes_still_give_text() {
    let bytes = [0x81u8, 0xFF, 0x00];
    let r = resolve(&bytes);
    assert!(r.degraded);
    assert!(r.text.contains('\u{FFFD}'));
}

#[test]
fn percent_encoded_path_is_decoded() {
    match decode_request_path("/music/A%20B%E4%B8%AD+x%zz.mp3") {
        Ok(p) => assert_eq!(p, "/music/A B中+x%zz.mp3"),
        Err(_) => panic!("expected a path"),
    }
    assert!(matches!(decode_request_path("/music/%FF.mp3"), Err(PathError::NotUtf8)));
}

#[test]
fn metadata_uses_file_stem_of_path() {
    let m = metadata_for_path("/music/Artist Name - Song Title.mp3", &ProbeTags::empty());
    assert_eq!(m.artist, Some("Artist Name".to_string()));
    assert_eq!(m.title, Some("Song Title".to_string()));
}
