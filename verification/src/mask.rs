//! Payload masking: the XOR of a payload with a repeating four-byte key.

use vstd::prelude::*;

verus! {

/// `data` with the byte at each position `i` XORed with `key[i mod 4]`.
pub open spec fn mask_bytes(data: Seq<u8>, key: Seq<u8>) -> Seq<u8>
    recommends
        key.len() == 4,
{
    Seq::new(data.len(), |i: int| data[i] ^ key[i % 4])
}

/// Masking twice with the same key gives the bytes back as they were.
pub proof fn lemma_mask_involution(data: Seq<u8>, key: Seq<u8>)
    requires
        key.len() == 4,
    ensures
        mask_bytes(mask_bytes(data, key), key) == data,
{
    let once = mask_bytes(data, key);
    let twice = mask_bytes(once, key);
    assert forall|i: int| 0 <= i < data.len() implies twice[i] == data[i] by {
        let d = data[i];
        let k = key[i % 4];
        assert((d ^ k) ^ k == d) by (bit_vector);
    }
    assert(twice =~= data);
}

/// Masks, or unmasks, `data` with `key`.
pub fn apply_mask(data: &[u8], key: &[u8; 4]) -> (out: Vec<u8>)
    ensures
        out@ == mask_bytes(data@, key@),
{
    let mut out: Vec<u8> = Vec::new();
    let mut i: usize = 0;
    while i < data.len()
        invariant
            i <= data.len(),
            out.len() == i,
            forall|j: int| 0 <= j < i ==> out[j] == data[j] ^ key[j % 4],
        decreases data.len() - i,
    {
        out.push(data[i] ^ key[i % 4]);
        i += 1;
    }
    assert(out@ =~= mask_bytes(data@, key@));
    out
}

} // verus!
