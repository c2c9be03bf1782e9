//! Helpers for owned text and optional text.

use vstd::prelude::*;
use vstd::string::*;
use vstd::utf8::encode_utf8;

verus! {

/// The characters of an optional string.
pub open spec fn opt_text(text: Option<String>) -> Option<Seq<char>> {
    match text {
        Some(s) => Some(s@),
        None => None,
    }
}

/// The characters of each optional string of a sequence.
pub open spec fn opt_texts(strings: Seq<Option<String>>) -> Seq<Option<Seq<char>>> {
    strings.map_values(|s: Option<String>| opt_text(s))
}

/// The characters of each string of a sequence.
pub open spec fn texts(strings: Seq<String>) -> Seq<Seq<char>> {
    strings.map_values(|s: String| s@)
}

/// The number of bytes that `text` takes in UTF-8.
pub open spec fn byte_len(text: Seq<char>) -> nat {
    encode_utf8(text).len()
}

/// `parts` written one after another with `separator` between neighbours.
pub open spec fn joined(parts: Seq<Seq<char>>, separator: Seq<char>) -> Seq<char>
    decreases parts.len(),
{
    if parts.len() == 0 {
        Seq::empty()
    } else if parts.len() == 1 {
        parts[0]
    } else {
        joined(parts.drop_last(), separator) + separator + parts.last()
    }
}

/// `text` with every `from` turned into `to`.
pub open spec fn with_char_replaced(text: Seq<char>, from: char, to: char) -> Seq<char> {
    text.map_values(|c: char| if c == from { to } else { c })
}

/// The number of bytes of `text`.
pub fn byte_length(text: &str) -> (len: usize)
    ensures
        len == byte_len(text@),
{
    text.as_bytes().len()
}

/// `first`, `second` and `third` in a row.
pub fn concat3(first: &str, second: &str, third: &str) -> (all: String)
    ensures
        all@ == first@ + second@ + third@,
{
    let mut all = first.to_owned();
    all.append(second);
    all.append(third);
    all
}

/// Joins `parts` with `separator`, as `[String]::join` does.
pub fn join(parts: &Vec<String>, separator: &str) -> (line: String)
    ensures
        line@ == joined(texts(parts@), separator@),
{
    let mut line = String::new();
    let mut i: usize = 0;
    while i < parts.len()
        invariant
            i <= parts.len(),
            line@ == joined(texts(parts@).take(i as int), separator@),
        decreases parts.len() - i,
    {
        proof {
            let all = texts(parts@);
            assert(all.take(i + 1).drop_last() == all.take(i as int));
        }
        if i > 0 {
            line.append(separator);
        }
        line.append(parts[i].as_str());
        i += 1;
    }
    proof {
        assert(texts(parts@).take(parts.len() as int) == texts(parts@));
    }
    line
}

/// Trusted: `str::replace` with one character as the pattern and one
/// character, written as a string by `char::encode_utf8`, as the
/// replacement. std documents that every match of the pattern is
/// replaced and the rest is kept.
#[verifier::external_body]
pub(crate) fn replace_char(text: &str, from: char, to: char) -> (replaced: String)
    ensures
        replaced@ == with_char_replaced(text@, from, to),
{
    let mut buffer = [0u8; 4];
    text.replace(from, to.encode_utf8(&mut buffer))
}

} // verus!
