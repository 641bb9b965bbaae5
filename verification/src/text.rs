//! Text as the editor sees it: a sequence of characters, addressed by byte offsets.

use vstd::prelude::*;
use vstd::string::*;
use vstd::utf8::*;

verus! {

/// The number of bytes that `s` takes in UTF-8.
pub open spec fn byte_len(s: Seq<char>) -> nat {
    encode_utf8(s).len()
}

/// The byte offset `idx` in `s` lies just before the character number `k`
/// (or at the end of `s`, where `k` is its length).
pub open spec fn starts_at(s: Seq<char>, k: int, idx: int) -> bool {
    0 <= k <= s.len() && byte_len(s.take(k)) == idx
}

/// The byte offset `idx` does not cut a character of `s` in two.
pub open spec fn on_boundary(s: Seq<char>, idx: int) -> bool {
    exists|k: int| #[trigger] starts_at(s, k, idx)
}

/// The number of characters of `s` that stand before the byte offset `idx`.
pub open spec fn char_index(s: Seq<char>, idx: int) -> int {
    choose|k: int| #[trigger] starts_at(s, k, idx)
}

/// Encoding a concatenation is concatenating the encodings.
pub proof fn lemma_encode_concat(a: Seq<char>, b: Seq<char>)
    ensures
        encode_utf8(a + b) == encode_utf8(a) + encode_utf8(b),
        byte_len(a + b) == byte_len(a) + byte_len(b),
    decreases a.len(),
{
    if a.len() == 0 {
        assert(a + b == b);
        assert(encode_utf8(a) == Seq::<u8>::empty());
        assert(encode_utf8(a) + encode_utf8(b) == encode_utf8(b));
    } else {
        lemma_encode_concat(a.drop_first(), b);
        assert((a + b).drop_first() == a.drop_first() + b);
        assert((a + b)[0] == a[0]);
        assert(encode_utf8(a + b) == encode_utf8(a) + encode_utf8(b));
    }
}

/// Two texts with the same encoding are the same text.
pub proof fn lemma_encode_injective(a: Seq<char>, b: Seq<char>)
    requires
        encode_utf8(a) == encode_utf8(b),
    ensures
        a == b,
{
    encode_utf8_decode_utf8(a);
    encode_utf8_decode_utf8(b);
}

/// One character takes between one and four bytes.
pub proof fn lemma_one_char(c: char)
    ensures
        encode_utf8(seq![c]) == encode_scalar(c as u32),
        1 <= byte_len(seq![c]) <= 4,
{
    reveal_with_fuel(encode_utf8, 2);
    assert(seq![c].drop_first() == Seq::<char>::empty());
    assert(encode_utf8(seq![c]) == encode_scalar(c as u32));
}

/// Appending a character adds its length in bytes.
pub proof fn lemma_push_len(s: Seq<char>, c: char)
    ensures
        byte_len(s.push(c)) == byte_len(s) + byte_len(seq![c]),
        encode_utf8(seq![c]) == encode_scalar(c as u32),
        1 <= byte_len(seq![c]) <= 4,
{
    lemma_one_char(c);
    lemma_encode_concat(s, seq![c]);
    assert(s.push(c) == s + seq![c]);
}

/// Later characters start at larger byte offsets.
pub proof fn lemma_offsets_increase(s: Seq<char>, i: int, j: int)
    requires
        0 <= i < j <= s.len(),
    ensures
        byte_len(s.take(i)) < byte_len(s.take(j)),
    decreases j - i,
{
    lemma_push_len(s.take(j - 1), s[j - 1]);
    assert(s.take(j) == s.take(j - 1).push(s[j - 1]));
    if i < j - 1 {
        lemma_offsets_increase(s, i, j - 1);
    }
}

/// A byte offset belongs to one character only.
pub proof fn lemma_starts_at_unique(s: Seq<char>, i: int, j: int, idx: int)
    requires
        starts_at(s, i, idx),
        starts_at(s, j, idx),
    ensures
        i == j,
{
    if i < j {
        lemma_offsets_increase(s, i, j);
    } else if j < i {
        lemma_offsets_increase(s, j, i);
    }
}

/// `char_index` is the character that starts at the offset.
pub proof fn lemma_char_index(s: Seq<char>, k: int, idx: int)
    requires
        starts_at(s, k, idx),
    ensures
        char_index(s, idx) == k,
{
    lemma_starts_at_unique(s, k, char_index(s, idx), idx);
}

/// Offset 0 and the length in bytes are the two ends of a text.
pub proof fn lemma_ends(s: Seq<char>)
    ensures
        starts_at(s, 0, 0),
        starts_at(s, s.len() as int, byte_len(s) as int),
{
    assert(s.take(0) == Seq::<char>::empty());
    assert(s.take(s.len() as int) == s);
}

/// Only the empty text takes no bytes.
pub proof fn lemma_empty(s: Seq<char>)
    ensures
        byte_len(s) == 0 <==> s.len() == 0,
{
    if s.len() > 0 {
        lemma_offsets_increase(s, 0, s.len() as int);
        lemma_ends(s);
    }
}

/// Splitting a text after its first `a.len()` characters.
pub proof fn lemma_split(a: Seq<char>, b: Seq<char>)
    ensures
        starts_at(a + b, a.len() as int, byte_len(a) as int),
        char_index(a + b, byte_len(a) as int) == a.len(),
        (a + b).take(a.len() as int) == a,
        (a + b).skip(a.len() as int) == b,
{
    assert((a + b).take(a.len() as int) == a);
    assert((a + b).skip(a.len() as int) == b);
    lemma_char_index(a + b, a.len() as int, byte_len(a) as int);
}

/// Where one part of a text ends and the next begins no character is cut, and as many stand before
/// that place as the first part has.
pub proof fn law_boundaries(a: Seq<char>, b: Seq<char>)
    ensures
        on_boundary(a + b, encode_utf8(a).len() as int),
        char_index(a + b, encode_utf8(a).len() as int) == a.len(),
{
    lemma_split(a, b);
}

/// The offset at which a character starts is a boundary of the encoded text.
pub proof fn lemma_char_boundary(a: Seq<char>, b: Seq<char>)
    ensures
        is_char_boundary(encode_utf8(a + b), byte_len(a) as int),
    decreases a.len(),
{
    let bytes = encode_utf8(a + b);
    encode_utf8_valid_utf8(a + b);
    if a.len() == 0 {
    } else {
        lemma_encode_concat(a, b);
        encode_utf8_first_scalar(a + b);
        lemma_char_boundary(a.drop_first(), b);
        assert((a + b).drop_first() == a.drop_first() + b);
        assert((a + b)[0] == a[0]);
        assert(pop_first_scalar(bytes) == encode_utf8(a.drop_first() + b));
        assert(byte_len(a) == encode_scalar(a[0] as u32).len() + byte_len(a.drop_first()));
    }
}

/// The number of bytes of `s`.
pub fn len_in_bytes(s: &str) -> (res: usize)
    ensures
        res == byte_len(s@),
{
    s.as_bytes().len()
}

/// Splits `s` at the byte offset `idx`.
pub fn split<'a>(s: &'a str, idx: usize) -> (res: (&'a str, &'a str))
    requires
        on_boundary(s@, idx as int),
    ensures
        res.0@ == s@.take(char_index(s@, idx as int)),
        res.1@ == s@.skip(char_index(s@, idx as int)),
        byte_len(res.0@) == idx,
        res.0@ + res.1@ == s@,
{
    let ghost k = char_index(s@, idx as int);
    let ghost a = s@.take(k);
    let ghost b = s@.skip(k);
    proof {
        assert(a + b == s@);
        lemma_char_boundary(a, b);
        lemma_encode_concat(a, b);
    }
    let parts = s.split_at(idx);
    proof {
        assert(encode_utf8(s@).subrange(0, idx as int) == encode_utf8(a));
        assert(encode_utf8(s@).subrange(idx as int, encode_utf8(s@).len() as int) == encode_utf8(
            b,
        ));
        lemma_encode_injective(parts.0@, a);
        lemma_encode_injective(parts.1@, b);
    }
    parts
}

/// The characters of `s`, in order.
pub fn chars_of(s: &str) -> (res: Vec<char>)
    ensures
        res@ == s@,
{
    let mut res: Vec<char> = Vec::new();
    for c in it: s.chars()
        invariant
            res@ == s@.take(it.index()),
            it.seq() == s@,
    {
        proof {
            assert(s@.take(it.index() + 1) == s@.take(it.index()).push(c));
        }
        res.push(c);
    }
    assert(s@.take(s@.len() as int) == s@);
    res
}

} // verus!
