//! The formatted block one included file contributes to the output.
use vstd::prelude::*;
use vstd::string::StringExecFns;

use crate::extract::{payload_chars, ExtractedContent};
use crate::size_format::{format_file_size, spec_format_file_size};
use crate::text::push_char;

verus! {

/// How many characters the delimiter line holds.
pub const DELIMITER_LEN: usize = 80;

/// The delimiter line: eighty equals signs.
pub open spec fn delimiter_line() -> Seq<char> {
    Seq::new(DELIMITER_LEN as nat, |i: int| '=')
}

/// The full record written for one file: delimiter, the relative path,
/// the human-readable size, delimiter, a blank line, the payload, and a
/// trailing blank line.
pub open spec fn spec_record(rel_path: Seq<char>, size: u64, payload: Seq<char>) -> Seq<char> {
    delimiter_line() + seq!['\n'] + "File: "@ + rel_path + seq!['\n'] + "Size: "@
        + spec_format_file_size(size) + seq!['\n'] + delimiter_line() + seq!['\n', '\n'] + payload
        + seq!['\n', '\n']
}

/// Appends the delimiter line to `s`.
fn push_delimiter(s: &mut String)
    ensures
        final(s)@ == old(s)@ + delimiter_line(),
{
    let mut i: usize = 0;
    while i < DELIMITER_LEN
        invariant
            i <= DELIMITER_LEN,
            s@ == old(s)@ + delimiter_line().take(i as int),
        decreases DELIMITER_LEN - i,
    {
        push_char(s, '=');
        i = i + 1;
        proof {
            assert(old(s)@ + delimiter_line().take(i - 1) + seq!['='] =~= old(s)@
                + delimiter_line().take(i as int));
        }
    }
    proof {
        assert(delimiter_line().take(DELIMITER_LEN as int) =~= delimiter_line());
    }
}

/// Render the record for one file: its path relative to the root, its
/// size, and its extracted payload, framed exactly as the output file
/// carries it.
pub fn render_record(rel_path: &str, size: u64, content: &ExtractedContent) -> (r: String)
    ensures
        r@ == spec_record(rel_path@, size, payload_chars(*content)),
{
    let mut s = String::new();
    push_delimiter(&mut s);
    push_char(&mut s, '\n');
    s.append("File: ");
    s.append(rel_path);
    push_char(&mut s, '\n');
    s.append("Size: ");
    let size_text = format_file_size(size);
    s.append(size_text.as_str());
    push_char(&mut s, '\n');
    push_delimiter(&mut s);
    push_char(&mut s, '\n');
    push_char(&mut s, '\n');
    match content {
        ExtractedContent::Text(t) => s.append(t.as_str()),
        ExtractedContent::Unreadable => s.append("[Binary file or read error]"),
    }
    push_char(&mut s, '\n');
    push_char(&mut s, '\n');
    proof {
        assert(s@ =~= spec_record(rel_path@, size, payload_chars(*content)));
    }
    s
}

} // verus!
