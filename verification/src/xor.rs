//! Byte-wise exclusive-or of a byte sequence with a key, and why it undoes
//! itself.

use vstd::prelude::*;

verus! {

/// `data` masked with `key`: byte `i` of the result is `data[i] ^ key[i]`.
///
/// The result is as long as `data`; key bytes past that length are not read.
pub open spec fn xor_bytes(data: Seq<u8>, key: Seq<u8>) -> Seq<u8>
    recommends
        data.len() <= key.len(),
{
    Seq::new(data.len(), |i: int| data[i] ^ key[i])
}

/// Masking one byte twice with the same key byte gives the byte back.
pub proof fn lemma_xor_byte_cancels(b: u8, k: u8)
    ensures
        (b ^ k) ^ k == b,
{
    assert((b ^ k) ^ k == b) by (bit_vector);
}

/// Masking a sequence twice with the same key gives the sequence back,
/// whenever the key covers it.
pub proof fn lemma_xor_bytes_cancels(data: Seq<u8>, key: Seq<u8>)
    requires
        data.len() <= key.len(),
    ensures
        xor_bytes(xor_bytes(data, key), key) == data,
{
    let twice = xor_bytes(xor_bytes(data, key), key);
    assert forall|i: int| 0 <= i < data.len() implies twice[i] == data[i] by {
        lemma_xor_byte_cancels(data[i], key[i]);
    }
    assert(twice =~= data);
}

/// Appends `xor_bytes(data, key)` to `out`, leaving what `out` held in place.
pub(crate) fn xor_extend(out: &mut Vec<u8>, data: &Vec<u8>, key: &Vec<u8>)
    requires
        data@.len() <= key@.len(),
    ensures
        final(out)@ == old(out)@ + xor_bytes(data@, key@),
{
    let n: usize = data.len();
    let mut i: usize = 0;
    while i < n
        invariant
            n == data@.len(),
            n <= key@.len(),
            i <= n,
            out@ == old(out)@ + xor_bytes(data@.take(i as int), key@),
        decreases n - i,
    {
        out.push(data[i] ^ key[i]);
        i += 1;
    }
    assert(data@.take(n as int) == data@);
}

} // verus!
