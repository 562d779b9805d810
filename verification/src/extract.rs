//! Turning a file's bytes into the text payload of a record.
use vstd::prelude::*;

verus! {

/// The characters that `String::from_utf8_lossy` decodes the given
/// bytes to: the text itself for valid UTF-8, with every invalid
/// sequence replaced by the replacement character.
pub uninterp spec fn lossy_decode_of(bytes: Seq<u8>) -> Seq<char>;

/// Relies on String::from_utf8_lossy: decodes bytes as UTF-8, replacing
/// invalid sequences with the replacement character; the result depends
/// on the bytes alone, valid UTF-8 comes through unchanged, and no
/// bytes decode to no text.
#[verifier::external_body]
fn utf8_lossy(bytes: &Vec<u8>) -> (r: String)
    ensures
        r@ == lossy_decode_of(bytes@),
        vstd::utf8::valid_utf8(bytes@) ==> r@ == vstd::utf8::decode_utf8(bytes@),
        bytes@.len() == 0 ==> r@.len() == 0,
{
    String::from_utf8_lossy(bytes.as_slice()).to_string()
}

/// The text payload extracted for one included file, or the marker for
/// a file whose bytes could not be read.
pub enum ExtractedContent {
    /// The file's bytes, decoded to text.
    Text(String),
    /// The file could not be read; the record carries a marker instead.
    Unreadable,
}

/// The marker text written in place of an unreadable file's content.
pub open spec fn unreadable_marker() -> Seq<char> {
    "[Binary file or read error]"@
}

/// The characters a payload contributes to its record.
pub open spec fn payload_chars(c: ExtractedContent) -> Seq<char> {
    match c {
        ExtractedContent::Text(s) => s@,
        ExtractedContent::Unreadable => unreadable_marker(),
    }
}

/// The bytes of an optional content buffer.
pub open spec fn content_view(bytes: Option<&Vec<u8>>) -> Option<Seq<u8>> {
    match bytes {
        Some(b) => Some(b@),
        None => None,
    }
}

/// The payload extracted from a file's bytes, or the unreadable marker
/// when they could not be read.
pub open spec fn spec_extract(bytes: Option<Seq<u8>>) -> Seq<char> {
    match bytes {
        Some(b) => lossy_decode_of(b),
        None => unreadable_marker(),
    }
}

/// Decode a file's bytes into a text payload. Bytes that were read are
/// decoded as UTF-8, lossily, so a decoding problem never drops the
/// file; only a failed read yields the unreadable marker.
pub fn extract_content(bytes: Option<&Vec<u8>>) -> (r: ExtractedContent)
    ensures
        payload_chars(r) == spec_extract(content_view(bytes)),
        r is Text <==> bytes is Some,
{
    match bytes {
        Some(b) => ExtractedContent::Text(utf8_lossy(b)),
        None => ExtractedContent::Unreadable,
    }
}

} // verus!
