//! Text as it crosses the client: decoding request bytes, blanking control
//! characters, and putting diagnostic messages together.

use vstd::prelude::*;
use vstd::string::StringExecFns;
use vstd::string::StringSliceAdditionalSpecFns;
use vstd::utf8::decode_utf8;
use vstd::utf8::valid_utf8;

verus! {

/// The words in which the standard library describes why `bytes` are not
/// UTF-8. Meaningful only for byte sequences that are not valid UTF-8.
pub uninterp spec fn utf8_error_text(bytes: Seq<u8>) -> Seq<char>;

/// Trusted: `std::str::from_utf8`, with its error rendered through `Display`.
///
/// The call succeeds exactly on well-formed UTF-8, and the string it hands
/// back is made of the very bytes it was given. On other input the error's
/// text is whatever the standard library prints for these bytes; the contract
/// only gives that text a name.
#[verifier::external_body]
fn from_utf8(bytes: &[u8]) -> (r: Result<&str, String>)
    ensures
        r is Ok <==> valid_utf8(bytes@),
        r matches Ok(s) ==> s.spec_bytes() == bytes@,
        r matches Err(detail) ==> detail@ == utf8_error_text(bytes@),
{
    match std::str::from_utf8(bytes) {
        Ok(s) => Ok(s),
        Err(e) => Err(e.to_string()),
    }
}

/// Trusted: `String::push` appends one character.
pub assume_specification[ String::push ](s: &mut String, ch: char)
    ensures
        final(s)@ == old(s)@.push(ch),
;

/// What reading `bytes` as text gives: the characters they encode, or the
/// description of the encoding fault.
pub open spec fn decoded(bytes: Seq<u8>) -> Result<Seq<char>, Seq<char>> {
    if valid_utf8(bytes) {
        Ok(decode_utf8(bytes))
    } else {
        Err(utf8_error_text(bytes))
    }
}

/// The view of a decoding result.
pub open spec fn decoding_view(r: Result<&str, String>) -> Result<Seq<char>, Seq<char>> {
    match r {
        Ok(s) => Ok(s@),
        Err(detail) => Err(detail@),
    }
}

/// The view of a decoding result that owns its text.
pub open spec fn reading_view(r: Result<String, String>) -> Result<Seq<char>, Seq<char>> {
    match r {
        Ok(s) => Ok(s@),
        Err(detail) => Err(detail@),
    }
}

/// Reads `bytes` as UTF-8 text.
pub fn decode(bytes: &[u8]) -> (r: Result<&str, String>)
    ensures
        decoding_view(r) == decoded(bytes@),
{
    let r = from_utf8(bytes);
    proof {
        if let Ok(s) = r {
            vstd::utf8::encode_utf8_decode_utf8(s@);
        }
    }
    r
}

/// Control characters: the code points U+0000 to U+001F and U+007F to U+009F.
pub open spec fn is_control(c: char) -> bool {
    c as u32 <= 0x1f || 0x7f <= c as u32 <= 0x9f
}

/// Tells whether `c` is a control character.
pub fn char_is_control(c: char) -> (b: bool)
    ensures
        b == is_control(c),
{
    let n: u32 = c as u32;
    n <= 0x1f || (0x7f <= n && n <= 0x9f)
}

/// A control character becomes a space; any other character stays.
pub open spec fn blank(c: char) -> char {
    if is_control(c) {
        ' '
    } else {
        c
    }
}

/// `text` with each control character replaced by a space.
pub open spec fn sanitized(text: Seq<char>) -> Seq<char> {
    text.map_values(|c: char| blank(c))
}

/// Replaces each control character of `text` by a space, so that a line break
/// inside a string value cannot upset the parser.
pub fn sanitize(text: &str) -> (clean: String)
    ensures
        clean@ == sanitized(text@),
{
    broadcast use vstd::string::group_string_axioms;

    let mut clean = String::new();
    for c in it: text.chars()
        invariant
            it.seq() == text@,
            clean@ == sanitized(text@.take(it.index() as int)),
    {
        let kept = if char_is_control(c) {
            ' '
        } else {
            c
        };
        clean.push(kept);
        assert(clean@ == sanitized(text@.take(it.index() + 1)));
    }
    assert(text@.take(text@.len() as int) == text@);
    clean
}

/// `head` followed by `tail`.
pub fn join(head: &str, tail: &str) -> (joined: String)
    ensures
        joined@ == head@ + tail@,
{
    String::from_str(head).concat(tail)
}

} // verus!
