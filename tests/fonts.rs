use audio_meta::fonts::{
    categorize, choose_face, group_fonts, looks_chinese, looks_japanese, record_face,
    FontCategory,
};
use audio_meta::library::{is_supported_audio, order_by_name, AudioFile};
use audio_meta::payload::encode_payload;
use audio_meta::text::is_blank_text;

#[test]
fn chinese_and_japanese_name_patterns() {
    assert!(looks_chinese("Noto Sans SC"));
    assert!(looks_chinese("思源黑体"));
    assert!(!looks_chinese("Arial"));
    assert!(looks_japanese("Hiragino Mincho"));
    assert!(looks_japanese("MS PGothic"));
    assert!(looks_japanese("ゴ"));
    assert!(!looks_japanese("Arial"));
}

#[test]
fn categories_follow_glyphs_then_names() {
    assert_eq!(categorize("Arial", false, false), FontCategory::English);
    assert_eq!(categorize("Ünïcode", false, false), FontCategory::Other);
    assert_eq!(categorize("Whatever", false, true), FontCategory::Japanese);
    assert_eq!(categorize("Noto Sans SC", true, false), FontCategory::Chinese);
    assert_eq!(categorize("Meiryo", true, false), FontCategory::Japanese);
    assert_eq!(categorize("Plain", true, false), FontCategory::English);
    assert_eq!(categorize("Plain", true, true), FontCategory::Chinese);
    assert_eq!(categorize("Hiragino", true, true), FontCategory::Japanese);
    assert_eq!(categorize("SimSun", false, false), FontCategory::Chinese);
}

#[test]
fn faces_merge_by_family_and_groups_are_sorted() {
    let mut fams: Vec<(String, bool, bool)> = Vec::new();
    record_face(&mut fams, "Zeta".to_string(), false, false);
    record_face(&mut fams, "Meiryo".to_string(), false, false);
    record_face(&mut fams, "Alpha".to_string(), false, false);
    record_face(&mut fams, "Meiryo".to_string(), false, true);
    assert_eq!(fams.len(), 3);
    assert_eq!(fams[1], ("Meiryo".to_string(), false, true));
    let g = group_fonts(&fams);
    assert_eq!(g.en_fonts, vec!["Alpha".to_string(), "Zeta".to_string()]);
    assert_eq!(g.ja_fonts, vec!["Meiryo".to_string()]);
    assert!(g.zh_fonts.is_empty());
    assert!(g.other_fonts.is_empty());
}

#[test]
fn face_choice_prefers_regular() {
    assert_eq!(choose_face(&vec![None, Some(false), Some(true)]), Some(2));
    assert_eq!(choose_face(&vec![None, Some(false), Some(false)]), Some(1));
    assert_eq!(choose_face(&vec![None, None]), None);
    assert_eq!(choose_face(&vec![]), None);
}

#[test]
fn audio_extensions_ignore_case() {
    assert!(is_supported_audio("MP3"));
    assert!(is_supported_audio("flac"));
    assert!(!is_supported_audio("txt"));
}

#[test]
fn files_are_ordered_by_folded_name() {
    let files = vec![
        AudioFile { path: "/b".to_string(), name: "beta".to_string() },
        AudioFile { path: "/a".to_string(), name: "Alpha".to_string() },
        AudioFile { path: "/c".to_string(), name: "Charlie".to_string() },
    ];
    let r = order_by_name(files);
    let names: Vec<&str> = r.iter().map(|f| f.name.as_str()).collect();
    assert_eq!(names, vec!["Alpha", "beta", "Charlie"]);
}

#[test]
fn payload_is_base64() {
    assert_eq!(encode_payload(b"Man"), Some("TWFu".to_string()));
    assert_eq!(encode_payload(b"Ma"), Some("TWE=".to_string()));
    assert_eq!(encode_payload(b""), Some(String::new()));
}

#[test]
fn blank_text() {
    assert!(is_blank_text("  \t"));
    assert!(is_blank_text(""));
    assert!(!is_blank_text(" a "));
}
