//! Comparing byte strings and text.

use vstd::prelude::*;
use vstd::slice::slice_subrange;
use vstd::string::*;

verus! {

/// Whether two byte strings hold the same bytes.
pub fn bytes_eq(a: &[u8], b: &[u8]) -> (same: bool)
    ensures
        same == (a@ == b@),
{
    if a.len() != b.len() {
        return false;
    }
    let mut i: usize = 0;
    while i < a.len()
        invariant
            a@.len() == b@.len(),
            i <= a@.len(),
            a@.subrange(0, i as int) == b@.subrange(0, i as int),
        decreases a@.len() - i,
    {
        if a[i] != b[i] {
            return false;
        }
        proof {
            assert(a@.subrange(0, i + 1) == a@.subrange(0, i as int).push(a@[i as int]));
            assert(b@.subrange(0, i + 1) == b@.subrange(0, i as int).push(b@[i as int]));
        }
        i += 1;
    }
    proof {
        assert(a@ == a@.subrange(0, i as int));
        assert(b@ == b@.subrange(0, i as int));
    }
    true
}

/// Whether two pieces of text hold the same characters.
pub fn str_eq(a: &str, b: &str) -> (same: bool)
    ensures
        same == (a@ == b@),
{
    proof {
        vstd::utf8::encode_utf8_decode_utf8(a@);
        vstd::utf8::encode_utf8_decode_utf8(b@);
    }
    bytes_eq(a.as_bytes(), b.as_bytes())
}

/// The bytes of a text that holds ASCII characters only.
pub open spec fn ascii(text: Seq<char>) -> Seq<u8> {
    Seq::new(text.len(), |i: int| text[i] as u8)
}

/// The bytes of a piece of ASCII text.
pub(crate) fn ascii_bytes(text: &str) -> (bytes: &[u8])
    requires
        text.is_ascii(),
    ensures
        bytes@ == ascii(text@),
{
    proof {
        vstd::string::is_ascii_spec_bytes(text);
    }
    text.as_bytes()
}

/// Whether `text` begins with `prefix`.
pub fn starts_with(text: &[u8], prefix: &[u8]) -> (found: bool)
    ensures
        found == prefix@.is_prefix_of(text@),
{
    if prefix.len() > text.len() {
        return false;
    }
    bytes_eq(slice_subrange(text, 0, prefix.len()), prefix)
}

/// Whether `part` stands in `text` at index `at`.
pub open spec fn occurs_at(text: Seq<u8>, part: Seq<u8>, at: int) -> bool {
    0 <= at && at + part.len() <= text.len() && text.subrange(at, at + part.len()) == part
}

/// Whether `part` stands somewhere in `text`.
pub open spec fn contains_bytes(text: Seq<u8>, part: Seq<u8>) -> bool {
    exists|at: int| occurs_at(text, part, at)
}

/// Whether `part` stands somewhere in `text`.
pub fn contains(text: &[u8], part: &[u8]) -> (found: bool)
    ensures
        found == contains_bytes(text@, part@),
{
    if part.len() > text.len() {
        return false;
    }
    if part.len() == 0 {
        assert(occurs_at(text@, part@, 0)) by {
            assert(text@.subrange(0, 0) =~= part@);
        }
        return true;
    }
    let last: usize = text.len() - part.len();
    let mut at: usize = 0;
    while at <= last
        invariant
            0 < part@.len() <= text@.len() <= usize::MAX,
            last == text@.len() - part@.len(),
            at <= last + 1,
            forall|before: int| 0 <= before < at ==> !occurs_at(text@, part@, before),
        decreases last + 1 - at,
    {
        if bytes_eq(slice_subrange(text, at, at + part.len()), part) {
            assert(occurs_at(text@, part@, at as int));
            return true;
        }
        at += 1;
    }
    false
}

/// A byte string without the bytes `byte` that it begins with.
pub open spec fn trim_start(text: Seq<u8>, byte: u8) -> Seq<u8>
    decreases text.len(),
{
    if text.len() > 0 && text[0] == byte {
        trim_start(text.drop_first(), byte)
    } else {
        text
    }
}

/// A byte string without the bytes `byte` that it ends with.
pub open spec fn trim_end(text: Seq<u8>, byte: u8) -> Seq<u8>
    decreases text.len(),
{
    if text.len() > 0 && text.last() == byte {
        trim_end(text.drop_last(), byte)
    } else {
        text
    }
}

/// A byte string without the bytes `byte` that it begins and ends with.
pub open spec fn trim(text: Seq<u8>, byte: u8) -> Seq<u8> {
    trim_end(trim_start(text, byte), byte)
}

/// Cuts the bytes `byte` off both ends of a byte string.
pub fn trim_matches(text: &[u8], byte: u8) -> (trimmed: &[u8])
    ensures
        trimmed@ == trim(text@, byte),
{
    let mut from: usize = 0;
    assert(text@.subrange(0, text@.len() as int) == text@);
    while from < text.len() && text[from] == byte
        invariant
            from <= text@.len(),
            trim_start(text@, byte) == trim_start(
                text@.subrange(from as int, text@.len() as int),
                byte,
            ),
        decreases text@.len() - from,
    {
        proof {
            let rest = text@.subrange(from as int, text@.len() as int);
            assert(rest.drop_first() == text@.subrange(from + 1, text@.len() as int));
        }
        from += 1;
    }
    let mut to: usize = text.len();
    while to > from && text[to - 1] == byte
        invariant
            from <= to <= text@.len(),
            trim_start(text@, byte) == text@.subrange(from as int, text@.len() as int),
            trim(text@, byte) == trim_end(text@.subrange(from as int, to as int), byte),
        decreases to,
    {
        proof {
            let rest = text@.subrange(from as int, to as int);
            assert(rest.drop_last() == text@.subrange(from as int, to - 1));
        }
        to -= 1;
    }
    slice_subrange(text, from, to)
}

/// The text that `str::to_lowercase` makes of a text.
pub uninterp spec fn lowercase_of(text: Seq<char>) -> Seq<char>;

/// Calls `str::to_lowercase` of the standard library, which gives the
/// lowercase form of a text as Unicode defines it. The result is a function
/// of the text alone and is known by its name only: nothing is claimed
/// about single characters.
#[verifier::external_body]
pub(crate) fn to_lowercase(text: &str) -> (lower: String)
    ensures
        lower@ == lowercase_of(text@),
{
    text.to_lowercase()
}

} // verus!
