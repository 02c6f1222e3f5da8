use audio_meta::normalize::{apply_filename_fallback, field_is_valid, normalize, Metadata};
use audio_meta::tags::{combine_tags, find_lyrics_like, find_tag, ProbeTags, Stream};

fn pairs(items: &[(&str, &str)]) -> Vec<(String, String)> {
    items.iter().map(|(k, v)| (k.to_string(), v.to_string())).collect()
}

fn probe(format: &[(&str, &str)], streams: &[(&str, &[(&str, &str)])]) -> ProbeTags {
    ProbeTags {
        format_tags: pairs(format),
        streams: streams
            .iter()
            .map(|(codec, tags)| Stream { codec_type: codec.to_string(), tags: pairs(tags) })
            .collect(),
    }
}

fn s(v: &str) -> Option<String> {
    Some(v.to_string())
}

#[test]
fn audio_stream_tag_overrides_container_tag() {
    let p = probe(&[("title", "A")], &[("audio", &[("title", "B")])]);
    let tags = combine_tags(&p);
    assert_eq!(find_tag(&tags, "title"), s("B"));
    assert_eq!(normalize(&p, "file").title, s("B"));
}

#[test]
fn container_tag_kept_when_stream_lacks_key() {
    let p = probe(&[("title", "A"), ("artist", "X")], &[("audio", &[("title", "B")])]);
    let tags = combine_tags(&p);
    assert_eq!(find_tag(&tags, "artist"), s("X"));
}

#[test]
fn only_first_audio_stream_is_merged() {
    let p = probe(
        &[],
        &[
            ("video", &[("title", "V")]),
            ("audio", &[("title", "First")]),
            ("audio", &[("title", "Second"), ("artist", "Z")]),
        ],
    );
    let m = normalize(&p, "stem");
    assert_eq!(m.title, s("First"));
    assert_eq!(m.artist, None);
}

#[test]
fn upper_case_artist_is_used() {
    let p = probe(&[("ARTIST", "X")], &[]);
    assert_eq!(normalize(&p, "stem").artist, s("X"));
}

#[test]
fn lower_case_artist_wins_over_upper_case() {
    let p = probe(&[("ARTIST", "Upper"), ("artist", "lower")], &[]);
    assert_eq!(normalize(&p, "stem").artist, s("lower"));
}

#[test]
fn blank_title_falls_back_to_stem() {
    let p = probe(&[("title", "   ")], &[]);
    let m = normalize(&p, "Track");
    assert_eq!(m.title, s("Track"));
}

#[test]
fn title_with_replacement_char_falls_back() {
    let p = probe(&[("title", "Bad\u{FFFD}"), ("artist", "\u{FFFD}")], &[]);
    let m = normalize(&p, "Who - What");
    assert_eq!(m.artist, s("Who"));
    assert_eq!(m.title, s("What"));
}

#[test]
fn scenario_artist_and_title_from_stem() {
    let m = normalize(&ProbeTags::empty(), "Artist Name - Song Title");
    assert_eq!(m.artist, s("Artist Name"));
    assert_eq!(m.title, s("Song Title"));
    assert_eq!(m.lyrics, None);
}

#[test]
fn scenario_tag_title_and_no_dash() {
    let p = probe(&[("title", "Real Title")], &[]);
    let m = normalize(&p, "TrackOnly");
    assert_eq!(m.title, s("Real Title"));
    assert_eq!(m.artist, None);
}

#[test]
fn scenario_three_segments() {
    let m = normalize(&ProbeTags::empty(), "A - B - C");
    assert_eq!(m.artist, s("A"));
    assert_eq!(m.title, s("B - C"));
}

#[test]
fn scenario_prefixed_lyrics_key() {
    let p = probe(&[("lyrics-eng", "La la la")], &[]);
    assert_eq!(normalize(&p, "x").lyrics, s("La la la"));
}

#[test]
fn mixed_case_prefixed_lyrics_key() {
    let tags = pairs(&[("Lyrics-ENG", "Words")]);
    assert_eq!(find_lyrics_like(&tags), s("Words"));
    let none = pairs(&[("title", "t"), ("lyric", "no")]);
    assert_eq!(find_lyrics_like(&none), None);
}

#[test]
fn plain_lyrics_keys_come_first() {
    let p = probe(&[("lyrics-eng", "prefixed"), ("LYRICS", "upper")], &[]);
    assert_eq!(normalize(&p, "x").lyrics, s("upper"));
    let p = probe(&[("LYRICS", "upper"), ("lyrics", "plain")], &[]);
    assert_eq!(normalize(&p, "x").lyrics, s("plain"));
}

#[test]
fn tag_title_equal_to_stem_is_split() {
    let p = probe(&[("title", "Band-Song")], &[]);
    let m = normalize(&p, "Band-Song");
    assert_eq!(m.artist, s("Band"));
    assert_eq!(m.title, s("Song"));
}

#[test]
fn blank_segments_are_dropped() {
    let m = normalize(&ProbeTags::empty(), " - Solo - ");
    assert_eq!(m.artist, None);
    assert_eq!(m.title, s(" - Solo - "));
    let m = normalize(&ProbeTags::empty(), "a--b");
    assert_eq!(m.artist, s("a"));
    assert_eq!(m.title, s("b"));
}

#[test]
fn empty_stem_gives_empty_title() {
    let m = normalize(&ProbeTags::empty(), "");
    assert_eq!(m.title, s(""));
    assert_eq!(m.artist, None);
}

#[test]
fn last_written_duplicate_key_wins() {
    let tags = pairs(&[("title", "one"), ("title", "two")]);
    assert_eq!(find_tag(&tags, "title"), s("two"));
}

#[test]
fn field_validity() {
    assert!(field_is_valid("x"));
    assert!(!field_is_valid(""));
    assert!(!field_is_valid(" \t\u{3000}\n"));
    assert!(!field_is_valid("a\u{FFFD}b"));
}

#[test]
fn fallback_keeps_present_fields() {
    let m = Metadata { title: s("T"), artist: s("A"), lyrics: None };
    let r = apply_filename_fallback(m, "X - Y");
    assert_eq!(r.title, s("T"));
    assert_eq!(r.artist, s("A"));
}

#[test]
fn normalizing_implied_tags_again_changes_nothing() {
    for (tags, stem) in [
        (vec![], "Artist Name - Song Title"),
        (vec![("title", "Real Title")], "TrackOnly"),
        (vec![("artist", "Someone"), ("lyrics", "words")], "A - B - C"),
        (vec![("title", "  ")], "   "),
    ] {
        let m = normalize(&probe(&tags, &[]), stem);
        let mut implied: Vec<(&str, &str)> = Vec::new();
        if let Some(t) = &m.title {
            implied.push(("title", t));
        }
        if let Some(a) = &m.artist {
            implied.push(("artist", a));
        }
        if let Some(l) = &m.lyrics {
            implied.push(("lyrics", l));
        }
        let again = normalize(&probe(&implied, &[]), stem);
        assert_eq!(again.title, m.title);
        assert_eq!(again.artist, m.artist);
        assert_eq!(again.lyrics, m.lyrics);
    }
}
