//! A one-time pad over bytes: a message is masked with a key by byte-wise
//! exclusive-or, and the same key takes the mask off again.

pub mod one_time_pad;
mod random;
pub mod xor;
