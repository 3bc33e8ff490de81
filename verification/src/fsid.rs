//! Filesystem identifiers: sixteen bytes, with the text forms used on the
//! command line and in log lines.

use vstd::prelude::*;
use vstd::string::StrSliceExecFns;

verus! {

/// The sixteen lower-case hexadecimal digits, in order of value.
pub open spec fn hex_digits() -> Seq<char> {
    seq!['0', '1', '2', '3', '4', '5', '6', '7', '8', '9', 'a', 'b', 'c', 'd', 'e', 'f']
}

/// The two hexadecimal digits of one byte, high nibble first.
pub open spec fn hex_pair(byte: u8) -> Seq<char> {
    seq![hex_digits()[byte as int / 16], hex_digits()[byte as int % 16]]
}

/// The hexadecimal digits of a run of bytes, two per byte.
pub open spec fn hex_text(bytes: Seq<u8>) -> Seq<char>
    decreases bytes.len(),
{
    if bytes.len() == 0 {
        Seq::empty()
    } else {
        hex_text(bytes.drop_last()) + hex_pair(bytes.last())
    }
}

/// The hyphenated text of an identifier: its bytes in hexadecimal, in groups
/// of 4, 2, 2, 2 and 6 bytes with a hyphen between groups.
pub open spec fn hyphenated_text(id: Seq<u8>) -> Seq<char> {
    hex_text(id.subrange(0, 4)) + seq!['-'] + hex_text(id.subrange(4, 6)) + seq!['-'] + hex_text(
        id.subrange(6, 8),
    ) + seq!['-'] + hex_text(id.subrange(8, 10)) + seq!['-'] + hex_text(id.subrange(10, 16))
}

/// Whether a text has the outline of the hyphenated form: 36 characters with
/// a hyphen after the 8th, the 12th, the 16th and the 20th of the 32 others.
pub open spec fn hyphenated_shape(text: Seq<char>) -> bool {
    &&& text.len() == 36
    &&& text[8] == '-'
    &&& text[13] == '-'
    &&& text[18] == '-'
    &&& text[23] == '-'
}

/// Tells whether a text has the outline of the hyphenated form.
pub fn has_hyphenated_shape(text: &str) -> (yes: bool)
    ensures
        yes == hyphenated_shape(text@),
{
    text.unicode_len() == 36 && text.get_char(8) == '-' && text.get_char(13) == '-'
        && text.get_char(18) == '-' && text.get_char(23) == '-'
}

/// What `uuid::Uuid::parse_str` makes of a text: the sixteen bytes of the
/// identifier it reads, or the text of the fault it reports.
pub uninterp spec fn uuid_parse_str(text: Seq<char>) -> Result<Seq<u8>, Seq<char>>;

/// A parse outcome with the identifier as a byte sequence and the fault as a
/// character sequence.
pub open spec fn parsed_view(parsed: Result<[u8; 16], String>) -> Result<Seq<u8>, Seq<char>> {
    match parsed {
        Ok(id) => Ok(id@),
        Err(why) => Err(why@),
    }
}

/// Calls `uuid::Uuid::parse_str`. Trusted: the outcome is a function of the
/// text alone, an accepted text yielding the identifier's bytes and a rejected
/// one the displayed form of the crate's parse error.
#[verifier::external_body]
pub(crate) fn parse_uuid(text: &str) -> (parsed: Result<[u8; 16], String>)
    ensures
        parsed_view(parsed) == uuid_parse_str(text@),
{
    match uuid::Uuid::parse_str(text) {
        Ok(id) => Ok(*id.as_bytes()),
        Err(fault) => Err(fault.to_string()),
    }
}

/// Formats an identifier through `uuid::Uuid::hyphenated`. Trusted: the text
/// is the lower-case hexadecimal form `8-4-4-4-12` of the sixteen bytes.
#[verifier::external_body]
pub(crate) fn hyphenated(id: &[u8; 16]) -> (text: String)
    ensures
        text@ == hyphenated_text(id@),
{
    uuid::Uuid::from_bytes(id).unwrap().hyphenated().to_string()
}

} // verus!
