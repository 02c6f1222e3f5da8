//! Binary payloads (audio, cover art, font files) as text for the front end.

use vstd::prelude::*;
use base64::Engine;

verus! {

/// The standard, padded Base64 text of some bytes.
pub uninterp spec fn base64_of(b: Seq<u8>) -> Seq<char>;

/// Relies on `base64::engine::general_purpose::STANDARD.encode`: standard
/// alphabet with padding, four characters for each started group of three
/// bytes. It panics when that length overflows `usize`, hence the bound.
#[verifier::external_body]
fn base64_standard(b: &[u8]) -> (r: String)
    requires
        b@.len() / 3 * 4 + 4 <= usize::MAX,
    ensures
        r@ == base64_of(b@),
        r@.len() == 4 * ((b@.len() + 2) / 3),
{
    base64::engine::general_purpose::STANDARD.encode(b)
}

/// Encodes a payload as standard Base64 text; `None` when the bytes are too
/// many for the text length to fit in memory.
pub fn encode_payload(bytes: &[u8]) -> (r: Option<String>)
    ensures
        r is Some <==> bytes@.len() / 3 * 4 + 4 <= usize::MAX,
        r is Some ==> r->0@ == base64_of(bytes@) && r->0@.len() == 4 * ((bytes@.len() + 2) / 3),
{
    if bytes.len() / 3 <= (usize::MAX - 4) / 4 {
        Some(base64_standard(bytes))
    } else {
        None
    }
}

} // verus!
