//! The back end logic of a music player: decoding the output of a media
//! probing tool whose text encoding is unknown, merging and normalising the
//! tags it reports into a title, artist and lyrics record with file name
//! fallbacks, and the smaller rules around it (which files a folder scan
//! lists and in what order, how system fonts are grouped by script, how
//! payloads are encoded for the front end).

pub mod encoding;
pub mod text;
pub mod tags;
pub mod normalize;
pub mod request;
pub mod fonts;
pub mod library;
pub mod payload;
