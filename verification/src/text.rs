//! Text on the wire: C strings, and the conversions that the standard library
//! does for this crate.
use vstd::prelude::*;
use vstd::utf8::{decode_utf8, valid_utf8};

verus! {

/// Whether `end` is where the C string in `bytes` ends: at its first NUL, or
/// at the end of the bytes where none is NUL.
pub open spec fn ends_at(bytes: Seq<u8>, end: int) -> bool {
    &&& 0 <= end <= bytes.len()
    &&& forall|i: int| 0 <= i < end ==> bytes[i] != 0
    &&& end == bytes.len() || bytes[end] == 0
}

/// The bytes before the first NUL: the contents of a C string.
pub open spec fn until_nul(bytes: Seq<u8>) -> Seq<u8> {
    bytes.take(choose|end: int| ends_at(bytes, end))
}

/// A C string ends in one place only.
pub proof fn lemma_ends_at_unique(bytes: Seq<u8>, a: int, b: int)
    requires
        ends_at(bytes, a),
        ends_at(bytes, b),
    ensures
        a == b,
{
    if a < b {
        assert(bytes[a] == 0);
    }
    if b < a {
        assert(bytes[b] == 0);
    }
}

/// The contents of a C string are the bytes up to where it ends.
pub proof fn lemma_until_nul(bytes: Seq<u8>, end: int)
    requires
        ends_at(bytes, end),
    ensures
        until_nul(bytes) == bytes.take(end),
{
    lemma_ends_at_unique(bytes, end, choose|end: int| ends_at(bytes, end));
}

/// The contents of the C string in `bytes`.
pub fn c_string_bytes(bytes: &[u8]) -> (contents: Vec<u8>)
    ensures
        contents@ == until_nul(bytes@),
{
    let mut contents: Vec<u8> = Vec::new();
    let mut i: usize = 0;
    while i < bytes.len() && bytes[i] != 0
        invariant
            0 <= i <= bytes.len(),
            contents@ == bytes@.take(i as int),
            forall|j: int| 0 <= j < i ==> bytes@[j] != 0,
        decreases bytes.len() - i,
    {
        contents.push(bytes[i]);
        i += 1;
        assert(bytes@.take(i as int) == bytes@.take(i - 1).push(bytes@[i - 1]));
    }
    proof {
        lemma_until_nul(bytes@, i as int);
    }
    contents
}

/// Decodes bytes as UTF-8 through `String::from_utf8`, which accepts exactly
/// the well-formed sequences and then yields their characters unchanged.
#[verifier::external_body]
pub(crate) fn utf8_text(bytes: Vec<u8>) -> (text: Option<String>)
    ensures
        match text {
            Some(s) => valid_utf8(bytes@) && s@ == decode_utf8(bytes@),
            None => !valid_utf8(bytes@),
        },
{
    String::from_utf8(bytes).ok()
}

/// Whether one of the bytes is NUL.
pub fn contains_nul(bytes: &[u8]) -> (found: bool)
    ensures
        found == bytes@.contains(0u8),
{
    let mut i: usize = 0;
    while i < bytes.len()
        invariant
            0 <= i <= bytes.len(),
            forall|j: int| 0 <= j < i ==> bytes@[j] != 0,
        decreases bytes.len() - i,
    {
        if bytes[i] == 0 {
            return true;
        }
        i += 1;
    }
    false
}

/// What `String::from_utf8_lossy` makes of bytes: their text, with each
/// malformed sequence replaced by U+FFFD.
pub uninterp spec fn utf8_lossy(bytes: Seq<u8>) -> Seq<char>;

/// Whether a character is white space: one of the characters with the
/// Unicode property `White_Space`.
pub open spec fn is_white_space(c: char) -> bool {
    let n = c as int;
    ||| 0x09 <= n <= 0x0D
    ||| n == 0x20
    ||| n == 0x85
    ||| n == 0xA0
    ||| n == 0x1680
    ||| 0x2000 <= n <= 0x200A
    ||| n == 0x2028
    ||| n == 0x2029
    ||| n == 0x202F
    ||| n == 0x205F
    ||| n == 0x3000
}

/// A text without the white space at its start.
pub open spec fn trimmed_start(text: Seq<char>) -> Seq<char>
    decreases text.len(),
{
    if text.len() > 0 && is_white_space(text.first()) {
        trimmed_start(text.drop_first())
    } else {
        text
    }
}

/// A text without the white space at its end.
pub open spec fn trimmed_end(text: Seq<char>) -> Seq<char>
    decreases text.len(),
{
    if text.len() > 0 && is_white_space(text.last()) {
        trimmed_end(text.drop_last())
    } else {
        text
    }
}

/// A text without the white space at both ends.
pub open spec fn trimmed(text: Seq<char>) -> Seq<char> {
    trimmed_end(trimmed_start(text))
}

/// Reads bytes as text through `String::from_utf8_lossy`; the result goes by
/// the name [`utf8_lossy`].
#[verifier::external_body]
pub(crate) fn lossy_text(bytes: &[u8]) -> (text: String)
    ensures
        text@ == utf8_lossy(bytes@),
{
    String::from_utf8_lossy(bytes).into_owned()
}

/// Trims a text through `str::trim`, which removes the characters with the
/// Unicode property `White_Space` from both ends and nothing else.
#[verifier::external_body]
pub(crate) fn trim_text(text: &str) -> (kept: String)
    ensures
        kept@ == trimmed(text@),
{
    text.trim().to_string()
}

/// The text of a string attribute: the C string in the buffer, read leniently.
pub fn decode_text(buffer: &[u8]) -> (text: String)
    ensures
        text@ == utf8_lossy(until_nul(buffer@)),
{
    let contents = c_string_bytes(buffer);
    lossy_text(contents.as_slice())
}

} // verus!
