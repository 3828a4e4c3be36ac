//! Unsigned integers as big-endian byte strings.

use vstd::prelude::*;

verus! {

/// 256 to the power `width`: the number of values that `width` bytes hold.
pub open spec fn pow256(width: nat) -> nat
    decreases width,
{
    if width == 0 {
        1
    } else {
        256 * pow256((width - 1) as nat)
    }
}

/// The low `width` bytes of `n`, most significant first.
pub open spec fn be_bytes(n: nat, width: nat) -> Seq<u8>
    decreases width,
{
    if width == 0 {
        Seq::empty()
    } else {
        be_bytes(n / 256, (width - 1) as nat).push((n % 256) as u8)
    }
}

/// The number that `bytes` spells, most significant byte first.
pub open spec fn be_value(bytes: Seq<u8>) -> nat
    decreases bytes.len(),
{
    if bytes.len() == 0 {
        0
    } else {
        be_value(bytes.drop_last()) * 256 + bytes.last() as nat
    }
}

/// Two bytes hold what a `u16` does, eight what a `u64` does, and fewer
/// than eight no more than that.
pub proof fn lemma_pow256_u64(width: nat)
    requires
        width <= 8,
    ensures
        0 < pow256(width) <= 0x1_0000_0000_0000_0000,
        width == 2 ==> pow256(width) == 0x1_0000,
        width == 8 ==> pow256(width) == 0x1_0000_0000_0000_0000,
{
    reveal_with_fuel(pow256, 10);
}

/// `be_bytes` gives exactly `width` bytes.
pub proof fn lemma_be_bytes_len(n: nat, width: nat)
    ensures
        be_bytes(n, width).len() == width,
    decreases width,
{
    if width > 0 {
        lemma_be_bytes_len(n / 256, (width - 1) as nat);
    }
}

/// The value of a byte string is below 256 to the power of its length.
pub proof fn lemma_be_value_bound(bytes: Seq<u8>)
    ensures
        be_value(bytes) < pow256(bytes.len()),
    decreases bytes.len(),
{
    if bytes.len() > 0 {
        lemma_be_value_bound(bytes.drop_last());
    }
}

/// A number that fits in `width` bytes is read back from its encoding.
pub proof fn lemma_be_value_of_bytes(n: nat, width: nat)
    requires
        n < pow256(width),
    ensures
        be_value(be_bytes(n, width)) == n,
    decreases width,
{
    if width > 0 {
        let rest = be_bytes(n / 256, (width - 1) as nat);
        lemma_be_bytes_len(n / 256, (width - 1) as nat);
        lemma_be_value_of_bytes(n / 256, (width - 1) as nat);
        assert(be_bytes(n, width).drop_last() =~= rest);
    }
}

/// Appends the low `width` bytes of `n` to `buffer`, most significant first.
pub fn write_be(buffer: &mut Vec<u8>, n: u64, width: usize)
    ensures
        final(buffer)@ == old(buffer)@ + be_bytes(n as nat, width as nat),
    decreases width,
{
    if width > 0 {
        write_be(buffer, n / 256, width - 1);
        buffer.push((n % 256) as u8);
    }
}

/// Reads `width` bytes of `buffer` from `start` on as one number, most
/// significant byte first.
pub fn read_be(buffer: &[u8], start: usize, width: usize) -> (n: u64)
    requires
        width <= 8,
        start + width <= buffer.len(),
    ensures
        n == be_value(buffer@.subrange(start as int, start + width)),
{
    let mut n: u64 = 0;
    let mut i: usize = 0;
    while i < width
        invariant
            i <= width <= 8,
            start + width <= buffer.len(),
            n == be_value(buffer@.subrange(start as int, start + i)),
        decreases width - i,
    {
        proof {
            let before = buffer@.subrange(start as int, start + i);
            let after = buffer@.subrange(start as int, start + i + 1);
            assert(after.drop_last() =~= before);
            lemma_be_value_bound(after);
            lemma_pow256_u64((i + 1) as nat);
        }
        n = n * 256 + buffer[start + i] as u64;
        i += 1;
    }
    n
}

} // verus!
