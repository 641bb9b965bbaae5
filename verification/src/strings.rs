//! Contracts for the string and character functions of the standard library that the editor
//! calls. What is stated here is taken from their documentation and is not proved.

use vstd::prelude::*;

use crate::text::{byte_len, char_index, on_boundary};

verus! {

/// `String::with_capacity`: a new empty string. How much room it has beyond the bytes asked for
/// is up to the allocator, so nothing is said of it; more than `isize::MAX` bytes cannot be had.
pub assume_specification[ String::with_capacity ](capacity: usize) -> (res: String)
    requires
        capacity <= isize::MAX,
    ensures
        res@ == Seq::<char>::empty(),
;

/// `String::capacity`: the room that the string has, in bytes. It is never less than what the
/// string holds, and as every function that makes room panics beyond `isize::MAX` bytes, it is
/// never more than that. What it is in between the allocator decides.
pub assume_specification[ String::capacity ](s: &String) -> (res: usize)
    ensures
        byte_len(s@) <= res <= isize::MAX,
;

/// `String::reserve_exact`: makes room for `additional` more bytes and keeps the text.
pub assume_specification[ String::reserve_exact ](s: &mut String, additional: usize)
    requires
        byte_len(old(s)@) + additional <= isize::MAX,
    ensures
        final(s)@ == old(s)@,
;

/// `String::push`: appends one character.
pub assume_specification[ String::push ](s: &mut String, ch: char)
    requires
        byte_len(old(s)@) + byte_len(seq![ch]) <= isize::MAX,
    ensures
        final(s)@ == old(s)@.push(ch),
;

/// `String::insert`: puts one character in front of the one that starts at the byte offset
/// `idx`, which must lie between two characters or at an end of the string.
pub assume_specification[ String::insert ](s: &mut String, idx: usize, ch: char)
    requires
        on_boundary(old(s)@, idx as int),
        byte_len(old(s)@) + byte_len(seq![ch]) <= isize::MAX,
    ensures
        final(s)@ == old(s)@.insert(char_index(old(s)@, idx as int), ch),
;

/// `String::remove`: takes out the character that starts at the byte offset `idx` and returns
/// it.
pub assume_specification[ String::remove ](s: &mut String, idx: usize) -> (res: char)
    requires
        on_boundary(old(s)@, idx as int),
        idx < byte_len(old(s)@),
    ensures
        res == old(s)@[char_index(old(s)@, idx as int)],
        final(s)@ == old(s)@.remove(char_index(old(s)@, idx as int)),
;

/// `String::drain`, its result dropped: takes out the text between the byte offsets `from` and
/// `to`.
#[verifier::external_body]
pub(crate) fn remove_range(s: &mut String, from: usize, to: usize)
    requires
        from <= to,
        on_boundary(old(s)@, from as int),
        on_boundary(old(s)@, to as int),
    ensures
        final(s)@ == old(s)@.take(char_index(old(s)@, from as int)) + old(s)@.skip(
            char_index(old(s)@, to as int),
        ),
{
    s.drain(from..to);
}

/// `char::len_utf8`: the number of bytes of the character in UTF-8.
pub assume_specification[ char::len_utf8 ](c: char) -> (res: usize)
    ensures
        res == byte_len(seq![c]),
;

/// The characters with Unicode's `White_Space` property.
pub open spec fn white_space(c: char) -> bool {
    ||| '\u{9}' <= c && c <= '\u{d}'
    ||| c == '\u{20}'
    ||| c == '\u{85}'
    ||| c == '\u{a0}'
    ||| c == '\u{1680}'
    ||| '\u{2000}' <= c && c <= '\u{200a}'
    ||| c == '\u{2028}'
    ||| c == '\u{2029}'
    ||| c == '\u{202f}'
    ||| c == '\u{205f}'
    ||| c == '\u{3000}'
}

/// `char::is_whitespace`: whether the character has the `White_Space` property of the Unicode
/// Character Database.
pub assume_specification[ char::is_whitespace ](c: char) -> (res: bool)
    ensures
        res == white_space(c),
;

/// The lower case form of an ASCII letter; any other character is left as it is.
pub open spec fn ascii_lower(c: char) -> char {
    if 'A' <= c && c <= 'Z' {
        (c as u32 + 32) as char
    } else {
        c
    }
}

/// `a` and `b` are the same text but for the case of their ASCII letters.
pub open spec fn same_but_for_case(a: Seq<char>, b: Seq<char>) -> bool {
    a.map_values(|c: char| ascii_lower(c)) =~= b.map_values(|c: char| ascii_lower(c))
}

/// `str::eq_ignore_ascii_case`: compares two strings without regard to the case of ASCII
/// letters.
pub assume_specification[ str::eq_ignore_ascii_case ](a: &str, b: &str) -> (res: bool)
    ensures
        res == same_but_for_case(a@, b@),
;

} // verus!
