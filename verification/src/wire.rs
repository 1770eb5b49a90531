//! The text form of an update on the wire: a JSON object with the single
//! member `content`.

use vstd::prelude::*;
use vstd::string::*;

verus! {

/// The lower-case hexadecimal digit for a value below sixteen.
pub open spec fn hex_digit(n: int) -> char {
    seq!['0', '1', '2', '3', '4', '5', '6', '7', '8', '9', 'a', 'b', 'c', 'd', 'e', 'f'][n]
}

/// How one character stands inside a JSON string: the quotation mark, the
/// backslash and the control characters below U+0020 are escaped, the five
/// common controls by their short forms and the others as `\u00` followed
/// by two hexadecimal digits; every other character stands for itself.
pub open spec fn escaped_char(c: char) -> Seq<char> {
    if c == '"' {
        seq!['\\', '"']
    } else if c == '\\' {
        seq!['\\', '\\']
    } else if c == '\u{8}' {
        seq!['\\', 'b']
    } else if c == '\t' {
        seq!['\\', 't']
    } else if c == '\n' {
        seq!['\\', 'n']
    } else if c == '\u{c}' {
        seq!['\\', 'f']
    } else if c == '\r' {
        seq!['\\', 'r']
    } else if (c as u32) < 0x20 {
        seq!['\\', 'u', '0', '0', hex_digit((c as u32 / 16) as int), hex_digit((c as u32 % 16) as int)]
    } else {
        seq![c]
    }
}

/// The characters of `s`, each in its escaped form, in order.
pub open spec fn escaped(s: Seq<char>) -> Seq<char>
    decreases s.len(),
{
    if s.len() == 0 {
        Seq::empty()
    } else {
        escaped(s.drop_last()) + escaped_char(s.last())
    }
}

/// `s` as a JSON string: its escaped characters between quotation marks.
pub open spec fn quoted(s: Seq<char>) -> Seq<char> {
    seq!['"'] + escaped(s) + seq!['"']
}

/// The message that carries `content`: `{"content":` followed by the
/// content as a JSON string and the closing brace.
pub open spec fn wire_text(content: Seq<char>) -> Seq<char> {
    seq!['{', '"', 'c', 'o', 'n', 't', 'e', 'n', 't', '"', ':'] + quoted(content) + seq!['}']
}

/// Serialises a string slice with `serde_json::to_string`.
///
/// Trusted: the result is taken to be the slice as a compact JSON string,
/// as `quoted` spells it out. `serde_json` writes into a buffer in memory
/// and a string slice always serialises, so the error arm is never taken.
#[verifier::external_body]
pub(crate) fn json_string(s: &str) -> (text: String)
    ensures
        text@ == quoted(s@),
{
    match serde_json::to_string(s) {
        Ok(text) => text,
        Err(_) => String::new(),
    }
}

/// Writes the message that carries `content`.
pub fn encode_content(content: &str) -> (text: String)
    ensures
        text@ == wire_text(content@),
{
    let mut text = String::from_str("{\"content\":");
    let body = json_string(content);
    text.append(body.as_str());
    text.append("}");
    proof {
        reveal_strlit("{\"content\":");
        reveal_strlit("}");
        assert(text@ =~= wire_text(content@));
    }
    text
}

} // verus!
