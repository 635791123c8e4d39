//! The pad itself: a message, the masked bytes made from it, and the three
//! operations that mask and unmask.

use crate::random::random_byte;
use crate::xor::{lemma_xor_bytes_cancels, xor_bytes, xor_extend};
use vstd::prelude::*;

verus! {

/// A key that does not cover the bytes it was meant to mask or unmask.
#[derive(Debug, Clone, Copy, PartialEq, Eq)]
pub struct KeyTooShortError {
    /// How many key bytes the operation needed.
    pub needed: usize,
    /// How many key bytes it was given.
    pub given: usize,
}

/// What a [`OneTimePad`] holds, as mathematics.
#[verifier::ext_equal]
pub struct PadView {
    /// The message, byte for byte as it was handed to `new`.
    pub original: Seq<u8>,
    /// Everything the encoding operations have produced so far, in order.
    pub padded: Seq<u8>,
}

impl PadView {
    /// A pad that holds `message` and has masked nothing yet.
    pub open spec fn fresh(message: Seq<u8>) -> PadView {
        PadView { original: message, padded: Seq::empty() }
    }

    /// The pad after one encoding with `key`: the message is untouched and
    /// its masked form is appended to `padded`.
    pub open spec fn encoded(self, key: Seq<u8>) -> PadView
        recommends
            self.original.len() <= key.len(),
    {
        PadView { original: self.original, padded: self.padded + xor_bytes(self.original, key) }
    }

    /// What decoding with `key` yields: `padded` with the mask taken off.
    pub open spec fn decoded(self, key: Seq<u8>) -> Seq<u8>
        recommends
            self.padded.len() <= key.len(),
    {
        xor_bytes(self.padded, key)
    }
}

/// A message together with the masked bytes made from it.
///
/// The key is never kept here: whoever encodes holds on to it and hands it
/// back to `decode`.
#[derive(Debug)]
pub struct OneTimePad {
    original: Vec<u8>,
    padded: Vec<u8>,
}

impl View for OneTimePad {
    type V = PadView;

    closed spec fn view(&self) -> PadView {
        PadView { original: self.original@, padded: self.padded@ }
    }
}

impl Clone for OneTimePad {
    /// A copy that holds the same message and the same masked bytes.
    fn clone(&self) -> (copy: OneTimePad)
        ensures
            copy@ == self@,
    {
        OneTimePad { original: self.original.clone(), padded: self.padded.clone() }
    }
}

impl OneTimePad {
    /// Takes any message, the empty one included; nothing is masked yet.
    pub fn new(original: Vec<u8>) -> (pad: OneTimePad)
        ensures
            pad@ == PadView::fresh(original@),
    {
        OneTimePad { original, padded: Vec::new() }
    }

    /// The message this pad was made from.
    pub fn original(&self) -> (bytes: &[u8])
        ensures
            bytes@ == self@.original,
    {
        self.original.as_slice()
    }

    /// The masked bytes produced so far.
    pub fn padded(&self) -> (bytes: &[u8])
        ensures
            bytes@ == self@.padded,
    {
        self.padded.as_slice()
    }

    /// Masks the message with a key drawn byte by byte at random, and hands
    /// the key back.
    ///
    /// Whatever bytes are drawn, the key is exactly as long as the message
    /// and the pad ends up as if `encode` had been called with that key.
    pub fn encode_gen_key(&mut self) -> (key: Vec<u8>)
        ensures
            key@.len() == old(self)@.original.len(),
            final(self)@ == old(self)@.encoded(key@),
    {
        let mut key: Vec<u8> = Vec::new();
        let n: usize = self.original.len();
        let mut i: usize = 0;
        while i < n
            invariant
                n == self.original@.len(),
                i <= n,
                key@.len() == i,
                self.original@ == old(self).original@,
                self.padded@ == old(self).padded@ + xor_bytes(self.original@.take(i as int), key@),
            decreases n - i,
        {
            let key_byte: u8 = random_byte();
            key.push(key_byte);
            self.padded.push(self.original[i] ^ key_byte);
            i += 1;
        }
        assert(self.original@.take(n as int) == self.original@);
        key
    }

    /// Masks the message with `key` and appends the result to the masked
    /// bytes. Key bytes past the message's length are ignored.
    ///
    /// A key shorter than the message is refused, and the pad is left as it
    /// was.
    pub fn encode(&mut self, key: Vec<u8>) -> (result: Result<(), KeyTooShortError>)
        ensures
            result is Ok <==> old(self)@.original.len() <= key@.len(),
            result is Ok ==> final(self)@ == old(self)@.encoded(key@),
            result is Err ==> final(self)@ == old(self)@,
            result matches Err(e) ==> e.needed == old(self)@.original.len(),
            result matches Err(e) ==> e.given == key@.len(),
    {
        if key.len() < self.original.len() {
            return Err(KeyTooShortError { needed: self.original.len(), given: key.len() });
        }
        xor_extend(&mut self.padded, &self.original, &key);
        Ok(())
    }

    /// Takes the mask off the masked bytes with `key` and returns the result;
    /// the pad itself is not changed. Key bytes past the masked length are
    /// ignored.
    ///
    /// A key shorter than the masked bytes is refused.
    pub fn decode(&self, key: Vec<u8>) -> (result: Result<Vec<u8>, KeyTooShortError>)
        ensures
            result is Ok <==> self@.padded.len() <= key@.len(),
            result matches Ok(decoded) ==> decoded@ == self@.decoded(key@),
            result matches Err(e) ==> e.needed == self@.padded.len(),
            result matches Err(e) ==> e.given == key@.len(),
    {
        if key.len() < self.padded.len() {
            return Err(KeyTooShortError { needed: self.padded.len(), given: key.len() });
        }
        let mut decoded: Vec<u8> = Vec::new();
        xor_extend(&mut decoded, &self.padded, &key);
        Ok(decoded)
    }
}

/// Encoding a message with a key that covers it and then decoding with the
/// same key gives the message back, byte for byte: the key is long enough
/// for the decoding too, and what is decoded is the message.
///
/// In terms of the operations: `new` makes `PadView::fresh(message)`,
/// `encode` moves the pad to `encoded(key)`, and `decode` returns
/// `decoded(key)`.
pub proof fn lemma_supplied_key_round_trip(message: Seq<u8>, key: Seq<u8>)
    requires
        message.len() <= key.len(),
    ensures
        PadView::fresh(message).encoded(key).padded.len() <= key.len(),
        PadView::fresh(message).encoded(key).decoded(key) == message,
{
    lemma_xor_bytes_cancels(message, key);
    assert(PadView::fresh(message).encoded(key).padded =~= xor_bytes(message, key));
}

/// Whatever key `encode_gen_key` draws for a fresh pad, decoding with that
/// key gives the message back, byte for byte.
///
/// All that is known of a drawn key is its length, the message's; the law
/// holds of every key of that length, so of the one drawn.
pub proof fn lemma_generated_key_round_trip(message: Seq<u8>, key: Seq<u8>)
    requires
        key.len() == message.len(),
    ensures
        PadView::fresh(message).encoded(key).padded.len() == key.len(),
        PadView::fresh(message).encoded(key).decoded(key) == message,
{
    lemma_supplied_key_round_trip(message, key);
}

/// The empty message masks to nothing and unmasks to nothing, whatever the
/// key and however long it is.
pub proof fn lemma_empty_message(key: Seq<u8>)
    ensures
        PadView::fresh(Seq::empty()).encoded(key).padded == Seq::<u8>::empty(),
        PadView::fresh(Seq::empty()).encoded(key).decoded(key) == Seq::<u8>::empty(),
{
    lemma_supplied_key_round_trip(Seq::empty(), key);
}

} // verus!
