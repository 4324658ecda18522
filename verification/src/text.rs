//! Small tools for texts.

use vstd::prelude::*;
use vstd::utf8::{
    char_is_scalar, char_u32_cast, encode_scalar, encode_utf8, encode_utf8_decode_utf8,
};

verus! {

/// `String::push` from the standard library: appends the character `c` to `s`.
#[verifier::external_body]
pub(crate) fn push_char(s: &mut String, c: char)
    ensures
        final(s)@ == old(s)@.push(c),
{
    s.push(c)
}

/// Tells whether `a` and `b` are the same text.
pub fn same_text(a: &str, b: &str) -> (same: bool)
    ensures
        same == (a@ == b@),
{
    let x = a.as_bytes();
    let y = b.as_bytes();
    proof {
        encode_utf8_decode_utf8(a@);
        encode_utf8_decode_utf8(b@);
    }
    if x.len() != y.len() {
        return false;
    }
    let mut i: usize = 0;
    while i < x.len()
        invariant
            i <= x@.len(),
            x@.len() == y@.len(),
            forall|j: int| 0 <= j < i ==> x@[j] == y@[j],
            a@ == b@ ==> x@ == y@,
        decreases x@.len() - i,
    {
        if x[i] != y[i] {
            return false;
        }
        i = i + 1;
    }
    assert(x@ =~= y@);
    true
}

/// The bytes of a character: an ASCII character is the one byte of its number, and no
/// byte of another character is the number of an ASCII character.
pub proof fn lemma_char_bytes(c: char)
    ensures
        c as u32 <= 0x7f ==> encode_scalar(c as u32) == seq![c as u8],
        c as u32 > 0x7f ==> forall|i: int|
            0 <= i < encode_scalar(c as u32).len() ==> #[trigger] encode_scalar(c as u32)[i]
                >= 0x80,
        encode_scalar(c as u32).len() >= 1,
{
    let v = c as u32;
    if v <= 0x7f {
        assert((v & 0x7f) as u8 == v as u8) by (bit_vector)
            requires
                v <= 0x7f,
        ;
    } else {
        assert(0xC0u8 | ((v >> 6) & 0x1F) as u8 >= 0x80) by (bit_vector);
        assert(0xE0u8 | ((v >> 12) & 0x0F) as u8 >= 0x80) by (bit_vector);
        assert(0xF0u8 | ((v >> 18) & 0x7) as u8 >= 0x80) by (bit_vector);
        assert(0x80u8 | (v & 0x3F) as u8 >= 0x80) by (bit_vector);
        assert(0x80u8 | ((v >> 6) & 0x3F) as u8 >= 0x80) by (bit_vector);
        assert(0x80u8 | ((v >> 12) & 0x3F) as u8 >= 0x80) by (bit_vector);
    }
}

/// An ASCII character and the byte of its number stand for each other.
pub proof fn lemma_ascii_char_of_byte(c: char, byte: u8)
    requires
        byte < 0x80,
    ensures
        (c as u32 <= 0x7f && c as u8 == byte) <==> c == byte as char,
{
    char_is_scalar(c);
    char_u32_cast(c, c as u32);
    let back = byte as char;
    char_u32_cast(back, back as u32);
}

/// A text holds an ASCII character where its bytes hold the number of that character,
/// and nowhere else: no part of another character looks like it.
pub proof fn lemma_ascii_byte_is_its_char(chars: Seq<char>, byte: u8)
    requires
        byte < 0x80,
    ensures
        encode_utf8(chars).contains(byte) <==> chars.contains(byte as char),
    decreases chars.len(),
{
    if chars.len() > 0 {
        let first = encode_scalar(chars[0] as u32);
        let rest = chars.drop_first();
        lemma_char_bytes(chars[0]);
        lemma_ascii_byte_is_its_char(rest, byte);
        let bytes = encode_utf8(chars);
        assert(bytes == first + encode_utf8(rest));
        if bytes.contains(byte) {
            let i = choose|i: int| 0 <= i < bytes.len() && bytes[i] == byte;
            if i < first.len() {
                assert(first[i] == byte);
                lemma_ascii_char_of_byte(chars[0], byte);
            } else {
                assert(encode_utf8(rest)[i - first.len()] == byte);
                let j = choose|j: int| 0 <= j < rest.len() && rest[j] == byte as char;
                assert(chars[j + 1] == byte as char);
            }
        }
        if chars.contains(byte as char) {
            let j = choose|j: int| 0 <= j < chars.len() && chars[j] == byte as char;
            if j == 0 {
                lemma_ascii_char_of_byte(chars[0], byte);
                assert(bytes[0] == byte);
            } else {
                assert(rest[j - 1] == byte as char);
                let i = choose|i: int|
                    0 <= i < encode_utf8(rest).len() && encode_utf8(rest)[i] == byte;
                assert(bytes[first.len() + i] == byte);
            }
        }
    }
}

/// A text starts with an ASCII character where its bytes start with the byte of that
/// character, and what follows that byte is the rest of the text.
pub proof fn lemma_first_byte(text: Seq<char>, c: char, byte: u8)
    requires
        byte < 0x80,
        c == byte as char,
    ensures
        text.len() > 0 <==> encode_utf8(text).len() > 0,
        text.len() > 0 ==> (text[0] == c <==> encode_utf8(text)[0] == byte),
        text.len() > 0 && text[0] == c ==> encode_utf8(text).skip(1) == encode_utf8(
            text.drop_first(),
        ),
{
    if text.len() > 0 {
        lemma_char_bytes(text[0]);
        lemma_ascii_char_of_byte(text[0], byte);
    }
}

/// A text has no more characters than bytes.
pub proof fn lemma_chars_fit(text: Seq<char>)
    ensures
        text.len() <= encode_utf8(text).len(),
    decreases text.len(),
{
    if text.len() > 0 {
        lemma_char_bytes(text[0]);
        lemma_chars_fit(text.drop_first());
    }
}

/// The position of the first `x` in `items`; the length of `items` if there is none.
pub open spec fn position<T>(items: Seq<T>, x: T) -> int
    decreases items.len(),
{
    if items.len() == 0 {
        0
    } else if items[0] == x {
        0
    } else {
        1 + position(items.drop_first(), x)
    }
}

/// The first `x` of items that start with `head`, where `head` holds none, is the
/// first of what follows `head`.
pub proof fn lemma_position_after<T>(head: Seq<T>, tail: Seq<T>, x: T)
    requires
        !head.contains(x),
    ensures
        position(head + tail, x) == head.len() + position(tail, x),
        0 <= position(tail, x) <= tail.len(),
    decreases head.len() + tail.len(),
{
    if tail.len() > 0 && tail[0] != x {
        lemma_position_after(Seq::empty(), tail.drop_first(), x);
    }
    if head.len() > 0 {
        assert((head + tail).drop_first() =~= head.drop_first() + tail);
        lemma_position_after(head.drop_first(), tail, x);
    }
}

/// Finds the first `c` in `text`. Returns its position, or `None` if there is none,
/// and the number of characters of `text`.
pub fn find_char(text: &str, c: char) -> (r: (Option<usize>, usize))
    ensures
        r.1 == text@.len(),
        r.0 matches Some(i) ==> i == position(text@, c) && i < text@.len(),
        r.0 is None ==> position(text@, c) == text@.len(),
{
    let mut found: Option<usize> = None;
    let mut count: usize = 0;
    let size = text.as_bytes().len();
    proof {
        assert(text@.skip(0) =~= text@);
        lemma_chars_fit(text@);
        assert(text@.len() <= size);
    }
    for x in it: text.chars()
        invariant
            it.seq() == text@,
            count == it.index(),
            text@.len() <= usize::MAX,
            found matches Some(i) ==> i == position(text@, c) && i < count,
            found is None ==> position(text@, c) == count + position(
                text@.skip(count as int),
                c,
            ),
    {
        proof {
            let rest = text@.skip(count as int);
            assert(rest.drop_first() =~= text@.skip(count + 1));
        }
        if found.is_none() && x == c {
            found = Some(count);
        }
        count = count + 1;
    }
    (found, count)
}

/// The parts of `text` between the separators `sep`, in their order. A text without a
/// separator is one part; two separators in a row have an empty part between them.
pub open spec fn parts(text: Seq<char>, sep: char) -> Seq<Seq<char>>
    decreases text.len(),
{
    if text.len() == 0 {
        seq![Seq::empty()]
    } else {
        let before = parts(text.drop_last(), sep);
        if text.last() == sep {
            before.push(Seq::empty())
        } else {
            before.drop_last().push(before.last().push(text.last()))
        }
    }
}

/// `pieces` put together, with a separator `sep` between each two of them.
pub open spec fn joined(pieces: Seq<Seq<char>>, sep: char) -> Seq<char>
    decreases pieces.len(),
{
    if pieces.len() == 0 {
        Seq::empty()
    } else if pieces.len() == 1 {
        pieces[0]
    } else {
        joined(pieces.drop_last(), sep).push(sep) + pieces.last()
    }
}

/// The parts of a text are what stands between its separators: no part holds a
/// separator, and the parts put together with separators between them are the text.
pub proof fn lemma_parts(text: Seq<char>, sep: char)
    ensures
        parts(text, sep).len() >= 1,
        forall|i: int|
            0 <= i < parts(text, sep).len() ==> !(#[trigger] parts(text, sep)[i]).contains(sep),
        joined(parts(text, sep), sep) == text,
    decreases text.len(),
{
    let all = parts(text, sep);
    if text.len() > 0 {
        let init = text.drop_last();
        let before = parts(init, sep);
        lemma_parts(init, sep);
        if text.last() == sep {
            assert(all.drop_last() =~= before);
        } else {
            let grown = before.last().push(text.last());
            assert forall|i: int| 0 <= i < all.len() implies !(#[trigger] all[i]).contains(
                sep,
            ) by {
                if i == before.len() - 1 {
                    assert(!before.last().contains(sep));
                    assert forall|j: int| 0 <= j < grown.len() implies grown[j] != sep by {
                        if j < before.last().len() {
                            assert(grown[j] == before.last()[j]);
                        }
                    }
                }
            }
            if before.len() > 1 {
                assert(all.drop_last() =~= before.drop_last());
                assert(joined(all, sep) =~= (joined(before.drop_last(), sep).push(sep)
                    + before.last()).push(text.last()));
            }
        }
    }
}

/// The texts of `strings`.
pub open spec fn views(strings: Seq<String>) -> Seq<Seq<char>> {
    Seq::new(strings.len(), |i: int| strings[i]@)
}

/// Splits `text` at each separator `sep`.
pub fn split(text: &str, sep: char) -> (out: Vec<String>)
    ensures
        views(out@) == parts(text@, sep),
{
    let mut done: Vec<String> = Vec::new();
    let mut current = String::new();
    for c in it: text.chars()
        invariant
            it.seq() == text@,
            views(done@).push(current@) == parts(text@.take(it.index() as int), sep),
    {
        let ghost before = text@.take(it.index() as int);
        let ghost after = text@.take(it.index() + 1);
        proof {
            assert(after.drop_last() =~= before);
        }
        if c == sep {
            done.push(current);
            current = String::new();
        } else {
            push_char(&mut current, c);
        }
    }
    assert(text@.take(text@.len() as int) =~= text@);
    done.push(current);
    done
}

} // verus!
