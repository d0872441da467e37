//! Strings as sequences of characters, and the byte positions that the
//! standard library counts them by.

use vstd::prelude::*;
use vstd::utf8::{encode_scalar, encode_utf8, is_char_boundary};

verus! {

/// The number of bytes that the UTF-8 form of `s` takes.
pub open spec fn byte_len(s: Seq<char>) -> usize {
    encode_utf8(s).len() as usize
}

/// How many characters of `s` lie before the byte position `byte`.
pub open spec fn chars_before(s: Seq<char>, byte: int) -> int
    decreases s.len(),
{
    if byte <= 0 || s.len() == 0 {
        0
    } else {
        1 + chars_before(s.skip(1), byte - encode_scalar(s[0] as u32).len())
    }
}

/// `String::push`: appends one character.
pub assume_specification[ String::push ](s: &mut String, ch: char)
    ensures
        final(s)@ == old(s)@.push(ch),
;

/// `String::pop`: takes off the last character, if there is one.
pub assume_specification[ String::pop ](s: &mut String) -> (r: Option<char>)
    ensures
        old(s)@.len() == 0 ==> r is None && final(s)@ == old(s)@,
        old(s)@.len() > 0 ==> r == Some(old(s)@.last()) && final(s)@ == old(s)@.drop_last(),
;

/// `String::insert`: puts a character in front of the one that starts at a byte
/// position, or at the end. It panics where the position is not on a character
/// boundary.
pub assume_specification[ String::insert ](s: &mut String, idx: usize, ch: char)
    requires
        is_char_boundary(encode_utf8(old(s)@), idx as int),
    ensures
        final(s)@ == old(s)@.insert(chars_before(old(s)@, idx as int), ch),
;

/// `String::remove`: takes out the character that starts at a byte position. It
/// panics where none starts there.
pub assume_specification[ String::remove ](s: &mut String, idx: usize) -> (r: char)
    requires
        is_char_boundary(encode_utf8(old(s)@), idx as int),
        idx < encode_utf8(old(s)@).len(),
    ensures
        r == old(s)@[chars_before(old(s)@, idx as int)],
        final(s)@ == old(s)@.remove(chars_before(old(s)@, idx as int)),
;

/// `String::clear`: leaves the string empty.
pub assume_specification[ String::clear ](s: &mut String)
    ensures
        final(s)@ == Seq::<char>::empty(),
;

/// Whether two strings hold the same characters.
pub fn same_text(a: &str, b: &str) -> (r: bool)
    ensures
        r == (a@ == b@),
{
    let x: String = a.to_owned();
    let y: String = b.to_owned();
    x == y
}

/// `head` followed by `tail`.
pub fn joined(head: &str, tail: &str) -> (r: String)
    ensures
        r@ == head@ + tail@,
{
    let mut out: String = head.to_owned();
    out.append(tail);
    out
}

} // verus!
