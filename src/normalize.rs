//! Building the canonical metadata record from merged tags and a file name.

use vstd::prelude::*;
use crate::tags::{
    lemma_lookup_concat, ProbeView, combine_tags, combined, find_lyrics_like, find_tag, lookup, lookup_lyrics_like, opt_view,
    tags_view, ProbeTags,
};
use crate::text::{
    chars_of, holds_char, is_blank, join_from, joined, segments, split_segments, string_of,
    trim_chars, views, REPLACEMENT,
};

verus! {

/// The canonical metadata of a media file.
pub struct Metadata {
    pub title: Option<String>,
    pub artist: Option<String>,
    pub lyrics: Option<String>,
}

/// The view of a metadata record.
pub struct MetaView {
    pub title: Option<Seq<char>>,
    pub artist: Option<Seq<char>>,
    pub lyrics: Option<Seq<char>>,
}

impl View for Metadata {
    type V = MetaView;

    open spec fn view(&self) -> MetaView {
        MetaView {
            title: opt_view(self.title),
            artist: opt_view(self.artist),
            lyrics: opt_view(self.lyrics),
        }
    }
}

/// A usable title or artist: not blank, and free of replacement characters.
pub open spec fn field_ok(v: Seq<char>) -> bool {
    !is_blank(v) && !v.contains(REPLACEMENT)
}

/// The value if it is usable, else nothing.
pub open spec fn validated(o: Option<Seq<char>>) -> Option<Seq<char>> {
    match o {
        Some(v) => if field_ok(v) {
            Some(v)
        } else {
            None
        },
        None => None,
    }
}

/// `a` if it is set, else `b`.
pub open spec fn first_of(a: Option<Seq<char>>, b: Option<Seq<char>>) -> Option<Seq<char>> {
    if a is Some {
        a
    } else {
        b
    }
}

/// The fields as read from merged tags, before any check.
pub open spec fn extracted(t: Seq<(Seq<char>, Seq<char>)>) -> MetaView {
    MetaView {
        title: lookup(t, "title"@),
        artist: first_of(lookup(t, "artist"@), lookup(t, "ARTIST"@)),
        lyrics: first_of(
            lookup(t, "lyrics"@),
            first_of(lookup(t, "LYRICS"@), lookup_lyrics_like(t)),
        ),
    }
}

/// The record with unusable titles and artists dropped.
pub open spec fn checked(m: MetaView) -> MetaView {
    MetaView { title: validated(m.title), artist: validated(m.artist), lyrics: m.lyrics }
}

/// The record completed from the file name stem: a missing title becomes
/// the stem; a missing artist becomes the first `-`-separated segment of the
/// stem when there are two or more, and then a title equal to the whole stem
/// becomes the remaining segments joined with `" - "`.
pub open spec fn with_fallback(m: MetaView, stem: Seq<char>) -> MetaView {
    let title = match m.title {
        Some(t) => t,
        None => stem,
    };
    let segs = segments(stem);
    if m.artist is None && segs.len() >= 2 {
        MetaView {
            title: Some(
                if title == stem {
                    joined(segs.drop_first())
                } else {
                    title
                },
            ),
            artist: Some(segs[0]),
            lyrics: m.lyrics,
        }
    } else {
        MetaView { title: Some(title), artist: m.artist, lyrics: m.lyrics }
    }
}

/// The metadata that merged tags and a file name stem give.
pub open spec fn normalized(t: Seq<(Seq<char>, Seq<char>)>, stem: Seq<char>) -> MetaView {
    with_fallback(checked(extracted(t)), stem)
}

/// A one-pair tag list for a set value; empty for an unset one.
pub open spec fn opt_pair(k: Seq<char>, o: Option<Seq<char>>) -> Seq<(Seq<char>, Seq<char>)> {
    match o {
        Some(v) => seq![(k, v)],
        None => seq![],
    }
}

/// The tags that a record implies: its title, artist and lyrics, those that
/// are set, under the keys `title`, `artist` and `lyrics`.
pub open spec fn implied_tags(m: MetaView) -> Seq<(Seq<char>, Seq<char>)> {
    opt_pair("title"@, m.title) + opt_pair("artist"@, m.artist) + opt_pair("lyrics"@, m.lyrics)
}

/// A probe whose only tags are the container tags given.
pub open spec fn probe_of(t: Seq<(Seq<char>, Seq<char>)>) -> ProbeView {
    ProbeView { format_tags: t, streams: seq![] }
}

proof fn lemma_lookup_pair(k: Seq<char>, o: Option<Seq<char>>, q: Seq<char>)
    ensures
        lookup(opt_pair(k, o), q) == (if k == q {
            o
        } else {
            None
        }),
{
    let empty: Seq<(Seq<char>, Seq<char>)> = seq![];
    assert(lookup(empty, q) is None);
    if o is Some {
        assert(opt_pair(k, o).drop_last() =~= empty);
    }
}

proof fn lemma_lookup_implied(m: MetaView, q: Seq<char>)
    ensures
        lookup(implied_tags(m), q) == first_of(
            if q == "lyrics"@ {
                m.lyrics
            } else {
                None
            },
            first_of(
                if q == "artist"@ {
                    m.artist
                } else {
                    None
                },
                if q == "title"@ {
                    m.title
                } else {
                    None
                },
            ),
        ),
{
    let tt = opt_pair("title"@, m.title);
    let ta = opt_pair("artist"@, m.artist);
    let tl = opt_pair("lyrics"@, m.lyrics);
    lemma_lookup_concat(tt + ta, tl, q);
    lemma_lookup_concat(tt, ta, q);
    lemma_lookup_pair("title"@, m.title, q);
    lemma_lookup_pair("artist"@, m.artist, q);
    lemma_lookup_pair("lyrics"@, m.lyrics, q);
}

/// Normalising again from the tags that a normalised record implies, with
/// the same file name stem, gives back its title and artist, and its lyrics
/// when it has any. Left out is the one case where this fails: a title that
/// is itself unusable (it holds a replacement character), differs from the
/// stem, and stands beside a usable artist; re-feeding it brings back the
/// stem as title.
pub proof fn lemma_normalize_idempotent(p: ProbeView, stem: Seq<char>)
    requires
        ({
            let m = normalized(combined(p), stem);
            field_ok(m.title->0) || m.title == Some(stem) || !(m.artist is Some && field_ok(
                m.artist->0,
            ))
        }),
    ensures
        ({
            let m = normalized(combined(p), stem);
            let again = normalized(combined(probe_of(implied_tags(m))), stem);
            &&& again.title == m.title
            &&& again.artist == m.artist
            &&& m.lyrics is Some ==> again.lyrics == m.lyrics
        }),
{
    let m = normalized(combined(p), stem);
    let t = implied_tags(m);
    assert(combined(probe_of(t)) =~= t);
    reveal_strlit("title");
    reveal_strlit("artist");
    reveal_strlit("ARTIST");
    reveal_strlit("lyrics");
    reveal_strlit("LYRICS");
    assert("title"@[0] != "artist"@[0]);
    assert("title"@[0] != "ARTIST"@[0]);
    assert("title"@[0] != "lyrics"@[0]);
    assert("title"@[0] != "LYRICS"@[0]);
    assert("artist"@[0] != "ARTIST"@[0]);
    assert("artist"@[0] != "lyrics"@[0]);
    assert("artist"@[0] != "LYRICS"@[0]);
    assert("lyrics"@[0] != "ARTIST"@[0]);
    assert("lyrics"@[0] != "LYRICS"@[0]);
    lemma_lookup_implied(m, "title"@);
    lemma_lookup_implied(m, "artist"@);
    lemma_lookup_implied(m, "ARTIST"@);
    lemma_lookup_implied(m, "lyrics"@);
}
/// Whether a title or artist value is usable.
pub fn field_is_valid(v: &str) -> (r: bool)
    ensures
        r == field_ok(v@),
{
    let cs = chars_of(v);
    let t = trim_chars(&cs);
    t.len() > 0 && !holds_char(&cs, REPLACEMENT)
}

/// Keeps the value only if it is usable.
pub fn validate_field(o: Option<String>) -> (r: Option<String>)
    ensures
        opt_view(r) == validated(opt_view(o)),
{
    match o {
        Some(v) => if field_is_valid(v.as_str()) {
            Some(v)
        } else {
            None
        },
        None => None,
    }
}

/// Reads title, artist and lyrics from merged tags.
pub fn extract_fields(tags: &Vec<(String, String)>) -> (r: Metadata)
    ensures
        r@ == extracted(tags_view(tags@)),
{
    let title = find_tag(tags, "title");
    let artist = match find_tag(tags, "artist") {
        Some(a) => Some(a),
        None => find_tag(tags, "ARTIST"),
    };
    let lyrics = match find_tag(tags, "lyrics") {
        Some(l) => Some(l),
        None => match find_tag(tags, "LYRICS") {
            Some(l) => Some(l),
            None => find_lyrics_like(tags),
        },
    };
    Metadata { title, artist, lyrics }
}

/// Drops a title or artist that is blank or holds a replacement character.
pub fn validate(m: Metadata) -> (r: Metadata)
    ensures
        r@ == checked(m@),
{
    Metadata {
        title: validate_field(m.title),
        artist: validate_field(m.artist),
        lyrics: m.lyrics,
    }
}

/// Completes a missing title or artist from the file name stem.
pub fn apply_filename_fallback(m: Metadata, stem: &str) -> (r: Metadata)
    ensures
        r@ == with_fallback(m@, stem@),
{
    let whole = stem.to_owned();
    let title = match m.title {
        Some(t) => t,
        None => stem.to_owned(),
    };
    if m.artist.is_none() {
        let cs = chars_of(stem);
        let segs = split_segments(&cs);
        if segs.len() >= 2 {
            let artist = string_of(&segs[0]);
            let new_title = if title == whole {
                let rest = join_from(&segs, 1);
                assert(views(segs@).subrange(1, segs.len() as int) =~= views(
                    segs@,
                ).drop_first());
                string_of(&rest)
            } else {
                title
            };
            return Metadata { title: Some(new_title), artist: Some(artist), lyrics: m.lyrics };
        }
    }
    Metadata { title: Some(title), artist: m.artist, lyrics: m.lyrics }
}

/// Normalises an already merged tag list against a file name stem.
pub fn normalize_tags(tags: &Vec<(String, String)>, stem: &str) -> (r: Metadata)
    ensures
        r@ == normalized(tags_view(tags@), stem@),
{
    let m = extract_fields(tags);
    let m = validate(m);
    apply_filename_fallback(m, stem)
}

/// Merges the probed tags and normalises them against a file name stem.
/// Never fails: the title is always set.
pub fn normalize(p: &ProbeTags, stem: &str) -> (r: Metadata)
    ensures
        r@ == normalized(combined(p@), stem@),
        r@.title is Some,
{
    let tags = combine_tags(p);
    normalize_tags(&tags, stem)
}

} // verus!
