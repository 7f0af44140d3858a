//! The calls into `serde_json`, and what they return.
use vstd::prelude::*;

verus! {

/// The error of `serde_json`. Nothing is known of what it holds.
#[verifier::external_type_specification]
#[verifier::external_body]
pub struct ExJsonError(serde_json::Error);

/// A JSON document in memory. Nothing is known of what it holds.
#[verifier::external_type_specification]
#[verifier::external_body]
pub struct ExJsonValue(serde_json::Value);

/// A number below sixteen as a hexadecimal digit, in lower case.
pub open spec fn hex_digit_text(value: int) -> Seq<char> {
    "0123456789abcdef"@.subrange(value, value + 1)
}

/// A character as it stands inside a JSON string literal: the quotation
/// mark and the backslash behind a backslash, the five control characters
/// that have a letter by that letter, any other character below the space
/// as `\u00` and its two hexadecimal digits, and every other character as
/// it is.
pub open spec fn escaped_char(c: char) -> Seq<char> {
    let code = c as u32;
    if code == 0x22 {
        "\\\""@
    } else if code == 0x5c {
        "\\\\"@
    } else if code == 0x08 {
        "\\b"@
    } else if code == 0x09 {
        "\\t"@
    } else if code == 0x0a {
        "\\n"@
    } else if code == 0x0c {
        "\\f"@
    } else if code == 0x0d {
        "\\r"@
    } else if code < 0x20 {
        "\\u00"@ + hex_digit_text(code as int / 16) + hex_digit_text(code as int % 16)
    } else {
        seq![c]
    }
}

/// A text as it stands inside a JSON string literal: each of its characters
/// as [`escaped_char`] gives it.
pub open spec fn escaped_text(text: Seq<char>) -> Seq<char>
    decreases text.len(),
{
    if text.len() == 0 {
        Seq::empty()
    } else {
        escaped_text(text.drop_last()) + escaped_char(text.last())
    }
}

/// The JSON string literal that stands for `text`: the escaped text between
/// two quotation marks.
pub open spec fn json_string_text(text: Seq<char>) -> Seq<char> {
    "\""@ + escaped_text(text) + "\""@
}

/// Whether a character stands for itself inside a JSON string literal.
pub open spec fn is_plain(c: char) -> bool {
    c as u32 >= 0x20 && c as u32 != 0x22 && c as u32 != 0x5c
}

/// A text of characters that all stand for themselves is written as it is,
/// between two quotation marks.
pub proof fn lemma_plain_text_is_quoted(text: Seq<char>)
    requires
        forall|i: int| 0 <= i < text.len() ==> is_plain(#[trigger] text[i]),
    ensures
        escaped_text(text) == text,
        json_string_text(text) == "\""@ + text + "\""@,
    decreases text.len(),
{
    if text.len() > 0 {
        lemma_plain_text_is_quoted(text.drop_last());
        assert(is_plain(text.last()));
        assert(escaped_char(text.last()) == seq![text.last()]);
        assert(text.drop_last() + seq![text.last()] =~= text);
    }
}

/// `serde_json::to_string` on a `&str`. The call writes the string literal
/// into memory, where writing cannot fail, and a `&str` is no map and has no
/// `Serialize` of its own that could refuse: so it succeeds. What it writes
/// is a quotation mark, the text with the quotation mark, the backslash and
/// the characters below the space escaped as [`escaped_char`] says, and a
/// quotation mark.
#[verifier::external_body]
pub(crate) fn json_string(text: &str) -> (written: Result<String, serde_json::Error>)
    ensures
        written is Ok,
        written matches Ok(literal) ==> literal@ == json_string_text(text@),
{
    serde_json::to_string(text)
}

/// Whether `text` is a JSON document: whether `serde_json::from_str` reads a
/// `serde_json::Value` from it.
pub uninterp spec fn is_json(text: Seq<char>) -> bool;

/// The value that `serde_json::from_str` reads from `text`, where `text` is a
/// JSON document.
pub uninterp spec fn json_document(text: Seq<char>) -> serde_json::Value;

/// The text that `serde_json::to_string_pretty` writes for `value`.
pub uninterp spec fn json_pretty_text(value: serde_json::Value) -> Seq<char>;

/// A JSON document, pretty-printed: read by `serde_json::from_str` and
/// written by `serde_json::to_string_pretty`.
pub open spec fn pretty_printed(text: Seq<char>) -> Seq<char> {
    json_pretty_text(json_document(text))
}

/// `serde_json::from_str` for a `serde_json::Value`. It reads a value from
/// `text` or returns its error; which of the two, and which value, depends on
/// `text` alone.
#[verifier::external_body]
pub(crate) fn json_value(text: &str) -> (read: Result<serde_json::Value, serde_json::Error>)
    ensures
        read is Ok <==> is_json(text@),
        read matches Ok(value) ==> value == json_document(text@),
{
    serde_json::from_str(text)
}

/// `serde_json::to_string_pretty` on a `serde_json::Value`. The call writes
/// into memory, where writing cannot fail, and a value holds no map with a
/// key that is not a string and serializes each of its parts without a
/// refusal of its own: so it succeeds. The text depends on the value alone.
#[verifier::external_body]
pub(crate) fn json_pretty(value: &serde_json::Value) -> (written: Result<String, serde_json::Error>)
    ensures
        written is Ok,
        written matches Ok(text) ==> text@ == json_pretty_text(*value),
{
    serde_json::to_string_pretty(value)
}

} // verus!
