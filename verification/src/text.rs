//! Byte strings as text: searching, trimming, comparing without regard to
//! ASCII case, and cutting into lines.

use vstd::prelude::*;
use vstd::slice::slice_subrange;

verus! {

pub const LF: u8 = 0x0A;

pub const CR: u8 = 0x0D;

/// ASCII whitespace: the space and the controls from tab to carriage return.
pub open spec fn is_space(byte: u8) -> bool {
    byte == 0x20 || (0x09 <= byte && byte <= 0x0D)
}

/// An ASCII capital as its small letter; any other byte as it is.
pub open spec fn lower(byte: u8) -> u8 {
    if 0x41 <= byte && byte <= 0x5A {
        (byte + 0x20) as u8
    } else {
        byte
    }
}

/// Whether two byte strings are the same but for the case of ASCII letters.
pub open spec fn eq_ignore_case(a: Seq<u8>, b: Seq<u8>) -> bool {
    &&& a.len() == b.len()
    &&& forall|i: int| 0 <= i < a.len() ==> lower(#[trigger] a[i]) == lower(b[i])
}

/// The place of the first `byte` in `s`, or the length of `s` if it has none.
pub open spec fn find(s: Seq<u8>, byte: u8) -> int
    decreases s.len(),
{
    if s.len() == 0 || s[0] == byte {
        0
    } else {
        1 + find(s.skip(1), byte)
    }
}

/// `s` without the whitespace at its start.
pub open spec fn trim_start(s: Seq<u8>) -> Seq<u8>
    decreases s.len(),
{
    if s.len() > 0 && is_space(s[0]) {
        trim_start(s.skip(1))
    } else {
        s
    }
}

/// `s` without the whitespace at its end.
pub open spec fn trim_end(s: Seq<u8>) -> Seq<u8>
    decreases s.len(),
{
    if s.len() > 0 && is_space(s.last()) {
        trim_end(s.drop_last())
    } else {
        s
    }
}

/// `s` without the whitespace at its start and at its end.
pub open spec fn trim(s: Seq<u8>) -> Seq<u8> {
    trim_end(trim_start(s))
}

/// The part of `s` in front of its first `byte`; all of `s` if it has none.
pub open spec fn before(s: Seq<u8>, byte: u8) -> Seq<u8> {
    s.take(find(s, byte))
}

/// The part of `s` behind its first `byte`; nothing if it has none.
pub open spec fn after(s: Seq<u8>, byte: u8) -> Seq<u8> {
    if 0 <= find(s, byte) < s.len() {
        s.skip(find(s, byte) + 1)
    } else {
        Seq::empty()
    }
}

/// The first line of `text`: what stands in front of the first line feed,
/// without a carriage return at its end.
pub open spec fn first_line(text: Seq<u8>) -> Seq<u8> {
    let line = before(text, LF);
    if line.len() > 0 && line.last() == CR {
        line.drop_last()
    } else {
        line
    }
}

/// `find` gives the one place in front of which `byte` does not occur and
/// at which it does, or the end.
pub proof fn lemma_find(s: Seq<u8>, byte: u8, place: int)
    requires
        0 <= place <= s.len(),
        forall|k: int| 0 <= k < place ==> s[k] != byte,
        place == s.len() || s[place] == byte,
    ensures
        find(s, byte) == place,
    decreases s.len(),
{
    if place > 0 {
        lemma_find(s.skip(1), byte, place - 1);
    }
}

/// Whether `byte` is ASCII whitespace.
pub fn is_space_byte(byte: u8) -> (space: bool)
    ensures
        space == is_space(byte),
{
    byte == 0x20 || (0x09 <= byte && byte <= 0x0D)
}

/// An ASCII capital as its small letter; any other byte as it is.
pub fn lower_byte(byte: u8) -> (small: u8)
    ensures
        small == lower(byte),
{
    if 0x41 <= byte && byte <= 0x5A {
        byte + 0x20
    } else {
        byte
    }
}

/// Whether two byte strings are the same but for the case of ASCII letters.
pub fn eq_ignore_ascii_case(a: &[u8], b: &[u8]) -> (same: bool)
    ensures
        same == eq_ignore_case(a@, b@),
{
    if a.len() != b.len() {
        return false;
    }
    let mut i: usize = 0;
    while i < a.len()
        invariant
            i <= a.len(),
            a.len() == b.len(),
            forall|k: int| 0 <= k < i ==> lower(#[trigger] a@[k]) == lower(b@[k]),
        decreases a.len() - i,
    {
        if lower_byte(a[i]) != lower_byte(b[i]) {
            return false;
        }
        i += 1;
    }
    true
}

/// Whether two byte strings are the same.
pub fn eq_bytes(a: &[u8], b: &[u8]) -> (same: bool)
    ensures
        same == (a@ == b@),
{
    if a.len() != b.len() {
        return false;
    }
    let mut i: usize = 0;
    while i < a.len()
        invariant
            i <= a.len(),
            a.len() == b.len(),
            forall|k: int| 0 <= k < i ==> a@[k] == b@[k],
        decreases a.len() - i,
    {
        if a[i] != b[i] {
            return false;
        }
        i += 1;
    }
    assert(a@ =~= b@);
    true
}

/// The place of the first `byte` in `s`, or the length of `s`.
pub fn find_byte(s: &[u8], byte: u8) -> (place: usize)
    ensures
        place == find(s@, byte),
        place <= s.len(),
        place < s.len() ==> s@[place as int] == byte,
{
    let mut i: usize = 0;
    while i < s.len() && s[i] != byte
        invariant
            i <= s.len(),
            forall|k: int| 0 <= k < i ==> s@[k] != byte,
        decreases s.len() - i,
    {
        i += 1;
    }
    proof {
        lemma_find(s@, byte, i as int);
    }
    i
}

/// `s` without the whitespace at its start and at its end.
pub fn trim_bytes(s: &[u8]) -> (trimmed: &[u8])
    ensures
        trimmed@ == trim(s@),
{
    let mut start: usize = 0;
    assert(s@.skip(0) =~= s@);
    while start < s.len() && is_space_byte(s[start])
        invariant
            start <= s.len(),
            trim_start(s@) == trim_start(s@.skip(start as int)),
        decreases s.len() - start,
    {
        assert(s@.skip(start as int).skip(1) =~= s@.skip(start + 1));
        start += 1;
    }
    let mut end: usize = s.len();
    assert(s@.subrange(start as int, end as int) =~= s@.skip(start as int));
    while end > start && is_space_byte(s[end - 1])
        invariant
            start <= end <= s.len(),
            trim(s@) == trim_end(s@.subrange(start as int, end as int)),
        decreases end - start,
    {
        assert(s@.subrange(start as int, end as int).drop_last() =~= s@.subrange(
            start as int,
            end - 1,
        ));
        end -= 1;
    }
    slice_subrange(s, start, end)
}

/// The part of `s` in front of its first `byte`, and the part behind it.
pub fn split_at_byte(s: &[u8], byte: u8) -> (parts: (&[u8], &[u8]))
    ensures
        parts.0@ == before(s@, byte),
        parts.1@ == after(s@, byte),
        parts.1@.len() < s@.len() || s@.len() == 0,
{
    let place = find_byte(s, byte);
    let head = slice_subrange(s, 0, place);
    if place < s.len() {
        let tail = slice_subrange(s, place + 1, s.len());
        (head, tail)
    } else {
        let tail = slice_subrange(s, place, place);
        assert(tail@ =~= Seq::<u8>::empty());
        (head, tail)
    }
}

/// The first line of `text` and what stands behind its line feed.
pub fn split_line(text: &[u8]) -> (parts: (&[u8], &[u8]))
    ensures
        parts.0@ == first_line(text@),
        parts.1@ == after(text@, LF),
        parts.1@.len() < text@.len() || text@.len() == 0,
{
    let (line, rest) = split_at_byte(text, LF);
    if line.len() > 0 && line[line.len() - 1] == CR {
        (slice_subrange(line, 0, line.len() - 1), rest)
    } else {
        (line, rest)
    }
}

} // verus!
