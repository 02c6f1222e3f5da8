//! Tag groups as reported by a probe, and merging them into one tag list.
//!
//! A tag list is a sequence of key/value pairs; where a key occurs more than
//! once, the last pair written for it is the one that counts.

use vstd::prelude::*;
use crate::text::is_lyrics_key;
use crate::text::lyrics_key;

verus! {

/// One stream of the probed file: its codec type and its tags.
pub struct Stream {
    pub codec_type: String,
    pub tags: Vec<(String, String)>,
}

/// The tags of a probed file: container-level tags, then each stream.
pub struct ProbeTags {
    pub format_tags: Vec<(String, String)>,
    pub streams: Vec<Stream>,
}

/// The view of a tag list.
pub open spec fn tags_view(v: Seq<(String, String)>) -> Seq<(Seq<char>, Seq<char>)> {
    v.map_values(|p: (String, String)| (p.0@, p.1@))
}

impl View for Stream {
    type V = (Seq<char>, Seq<(Seq<char>, Seq<char>)>);

    open spec fn view(&self) -> Self::V {
        (self.codec_type@, tags_view(self.tags@))
    }
}

/// The view of probed tags: container tags, and each stream's view.
pub struct ProbeView {
    pub format_tags: Seq<(Seq<char>, Seq<char>)>,
    pub streams: Seq<(Seq<char>, Seq<(Seq<char>, Seq<char>)>)>,
}

impl View for ProbeTags {
    type V = ProbeView;

    open spec fn view(&self) -> ProbeView {
        ProbeView {
            format_tags: tags_view(self.format_tags@),
            streams: self.streams@.map_values(|s: Stream| s@),
        }
    }
}

/// The view of an optional string.
pub open spec fn opt_view(o: Option<String>) -> Option<Seq<char>> {
    match o {
        Some(s) => Some(s@),
        None => None,
    }
}

/// The value last written for key `k`, if any.
pub open spec fn lookup(tags: Seq<(Seq<char>, Seq<char>)>, k: Seq<char>) -> Option<Seq<char>>
    decreases tags.len(),
{
    if tags.len() == 0 {
        None
    } else if tags.last().0 == k {
        Some(tags.last().1)
    } else {
        lookup(tags.drop_last(), k)
    }
}

/// The value of the most recently written pair whose key reads, in lower
/// case, as starting with `lyrics`.
pub open spec fn lookup_lyrics_like(tags: Seq<(Seq<char>, Seq<char>)>) -> Option<Seq<char>>
    decreases tags.len(),
{
    if tags.len() == 0 {
        None
    } else if is_lyrics_key(tags.last().0) {
        Some(tags.last().1)
    } else {
        lookup_lyrics_like(tags.drop_last())
    }
}

/// The tags of the first audio stream; none when there is no audio stream.
pub open spec fn first_audio_tags(
    streams: Seq<(Seq<char>, Seq<(Seq<char>, Seq<char>)>)>,
) -> Seq<(Seq<char>, Seq<char>)>
    decreases streams.len(),
{
    if streams.len() == 0 {
        seq![]
    } else if streams[0].0 == "audio"@ {
        streams[0].1
    } else {
        first_audio_tags(streams.drop_first())
    }
}

/// Container tags overlaid with those of the first audio stream.
pub open spec fn combined(p: ProbeView) -> Seq<(Seq<char>, Seq<char>)> {
    p.format_tags + first_audio_tags(p.streams)
}

/// Looking a key up in two lists put end to end: the second list wins.
pub proof fn lemma_lookup_concat(
    a: Seq<(Seq<char>, Seq<char>)>,
    b: Seq<(Seq<char>, Seq<char>)>,
    k: Seq<char>,
)
    ensures
        lookup(a + b, k) == (if lookup(b, k) is Some {
            lookup(b, k)
        } else {
            lookup(a, k)
        }),
    decreases b.len(),
{
    if b.len() == 0 {
        assert(a + b =~= a);
    } else {
        assert((a + b).drop_last() =~= a + b.drop_last());
        lemma_lookup_concat(a, b.drop_last(), k);
    }
}

/// A tag of the first audio stream overrides a container tag of the same
/// key; a key that the stream lacks keeps its container value.
pub proof fn lemma_stream_overrides_container(p: ProbeView, k: Seq<char>)
    ensures
        lookup(first_audio_tags(p.streams), k) is Some ==> lookup(combined(p), k) == lookup(
            first_audio_tags(p.streams),
            k,
        ),
        lookup(first_audio_tags(p.streams), k) is None ==> lookup(combined(p), k) == lookup(
            p.format_tags,
            k,
        ),
{
    lemma_lookup_concat(p.format_tags, first_audio_tags(p.streams), k);
}

impl ProbeTags {
    /// Tags of a probe that gave nothing usable.
    pub fn empty() -> (r: ProbeTags)
        ensures
            r@.format_tags.len() == 0,
            r@.streams.len() == 0,
    {
        ProbeTags { format_tags: Vec::new(), streams: Vec::new() }
    }
}

/// Appends copies of the pairs of `src` to `out`.
fn append_tags(out: &mut Vec<(String, String)>, src: &Vec<(String, String)>)
    ensures
        tags_view(final(out)@) == tags_view(old(out)@) + tags_view(src@),
{
    let mut k: usize = 0;
    while k < src.len()
        invariant
            k <= src.len(),
            tags_view(out@) == tags_view(old(out)@) + tags_view(src@).take(k as int),
        decreases src.len() - k,
    {
        let key = src[k].0.clone();
        let value = src[k].1.clone();
        let ghost prev = out@;
        out.push((key, value));
        assert(tags_view(out@) =~= tags_view(prev).push(tags_view(src@)[k as int]));
        assert(tags_view(src@).take(k + 1) =~= tags_view(src@).take(k as int).push(
            tags_view(src@)[k as int],
        ));
        k = k + 1;
        assert(tags_view(out@) =~= tags_view(old(out)@) + tags_view(src@).take(k as int));
    }
    assert(tags_view(src@).take(src.len() as int) =~= tags_view(src@));
}

/// Merges container tags with the tags of the first audio stream, which win
/// on a shared key. Later streams are ignored.
pub fn combine_tags(p: &ProbeTags) -> (r: Vec<(String, String)>)
    ensures
        tags_view(r@) == combined(p@),
{
    let mut out: Vec<(String, String)> = Vec::new();
    append_tags(&mut out, &p.format_tags);
    assert(tags_view(out@) =~= p@.format_tags);
    let audio = "audio".to_owned();
    let mut i: usize = 0;
    assert(p@.streams.skip(0) =~= p@.streams);
    while i < p.streams.len()
        invariant
            i <= p.streams.len(),
            audio@ == "audio"@,
            tags_view(out@) == p@.format_tags,
            first_audio_tags(p@.streams) == first_audio_tags(p@.streams.skip(i as int)),
        decreases p.streams.len() - i,
    {
        assert(p@.streams.skip(i as int).drop_first() =~= p@.streams.skip(i + 1));
        if p.streams[i].codec_type == audio {
            append_tags(&mut out, &p.streams[i].tags);
            return out;
        }
        i = i + 1;
    }
    assert(tags_view(out@) =~= combined(p@));
    out
}

/// The value last written for `key` in the list.
pub fn find_tag(tags: &Vec<(String, String)>, key: &str) -> (r: Option<String>)
    ensures
        opt_view(r) == lookup(tags_view(tags@), key@),
{
    let wanted = key.to_owned();
    let mut i: usize = tags.len();
    assert(tags_view(tags@).take(i as int) =~= tags_view(tags@));
    while i > 0
        invariant
            i <= tags.len(),
            wanted@ == key@,
            lookup(tags_view(tags@), key@) == lookup(tags_view(tags@).take(i as int), key@),
        decreases i,
    {
        assert(tags_view(tags@).take(i as int).drop_last() =~= tags_view(tags@).take(i - 1));
        if tags[i - 1].0 == wanted {
            return Some(tags[i - 1].1.clone());
        }
        i = i - 1;
    }
    None
}

/// The value of the most recently written pair whose key starts with
/// `lyrics` in lower case.
pub fn find_lyrics_like(tags: &Vec<(String, String)>) -> (r: Option<String>)
    ensures
        opt_view(r) == lookup_lyrics_like(tags_view(tags@)),
{
    let mut i: usize = tags.len();
    assert(tags_view(tags@).take(i as int) =~= tags_view(tags@));
    while i > 0
        invariant
            i <= tags.len(),
            lookup_lyrics_like(tags_view(tags@)) == lookup_lyrics_like(
                tags_view(tags@).take(i as int),
            ),
        decreases i,
    {
        assert(tags_view(tags@).take(i as int).drop_last() =~= tags_view(tags@).take(i - 1));
        if lyrics_key(tags[i - 1].0.as_str()) {
            return Some(tags[i - 1].1.clone());
        }
        i = i - 1;
    }
    None
}

} // verus!
