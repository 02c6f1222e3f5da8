//! The audio files of a music folder: which extensions count, and the order
//! in which the files are listed.

use vstd::prelude::*;
use vstd::utf8::encode_utf8;
use crate::fonts::lex_le;
use crate::text::{lower_of, lowercase};

verus! {

/// The extensions, in lower case, of the files that are listed.
pub open spec fn audio_extensions() -> Seq<Seq<char>> {
    seq!["mp3"@, "wav"@, "flac"@, "m4a"@, "ogg"@]
}

/// Whether a file with this extension is listed; case does not matter.
pub fn is_supported_audio(ext: &str) -> (r: bool)
    ensures
        r == audio_extensions().contains(lower_of(ext@)),
{
    let low = lowercase(ext);
    let known: Vec<&str> = vec!["mp3", "wav", "flac", "m4a", "ogg"];
    assert(known@.map_values(|e: &str| e@) =~= audio_extensions());
    let mut j: usize = 0;
    while j < known.len()
        invariant
            j <= known.len(),
            low@ == lower_of(ext@),
            known@.map_values(|e: &str| e@) == audio_extensions(),
            forall|k: int| 0 <= k < j ==> audio_extensions()[k] != low@,
        decreases known.len() - j,
    {
        let candidate = known[j].to_owned();
        if candidate == low {
            assert(audio_extensions()[j as int] == low@);
            return true;
        }
        j = j + 1;
    }
    false
}

/// A listed audio file: its full path and its file name without extension.
pub struct AudioFile {
    pub path: String,
    pub name: String,
}

/// The views of a list of files: path and name of each.
pub open spec fn files_view(v: Seq<AudioFile>) -> Seq<(Seq<char>, Seq<char>)> {
    v.map_values(|f: AudioFile| (f.path@, f.name@))
}

/// The names, in lower case, are in the order of their UTF-8 bytes.
pub open spec fn sorted_by_folded_name(v: Seq<(Seq<char>, Seq<char>)>) -> bool {
    forall|i: int, j: int|
        0 <= i < j < v.len() ==> lex_le(
            encode_utf8(lower_of(v[i].1)),
            encode_utf8(lower_of(v[j].1)),
        )
}

/// The lower-case form of a file's name, by which files are ordered.
pub fn folded_name(f: &AudioFile) -> (r: String)
    ensures
        r@ == lower_of(f.name@),
{
    lowercase(f.name.as_str())
}

/// Relies on `slice::sort_by` comparing the lower-case names with `String`'s
/// `Ord`, which orders strings lexicographically by their bytes: the same
/// files, in that order.
#[verifier::external_body]
fn sort_files(v: &mut Vec<AudioFile>)
    ensures
        files_view(final(v)@).to_multiset() == files_view(old(v)@).to_multiset(),
        sorted_by_folded_name(files_view(final(v)@)),
{
    v.sort_by(|a, b| folded_name(a).cmp(&folded_name(b)));
}

/// Orders files by name, without regard to case.
pub fn order_by_name(files: Vec<AudioFile>) -> (r: Vec<AudioFile>)
    ensures
        files_view(r@).to_multiset() == files_view(files@).to_multiset(),
        sorted_by_folded_name(files_view(r@)),
{
    let mut v = files;
    sort_files(&mut v);
    v
}

} // verus!
