//! Random fixed-width key/value pairs and the big-endian value encoding.
use vstd::prelude::*;

verus! {

/// Width of a generated key in bytes.
pub const KEY_LEN: usize = 32;

/// One generated key/value pair.
#[derive(Clone, Copy, Debug, PartialEq, Eq)]
pub struct KvPair {
    pub key: [u8; 32],
    pub value: u64,
}

/// The eight bytes of `v`, most significant first.
pub open spec fn be_bytes(v: u64) -> Seq<u8> {
    seq![
        (v / 0x100000000000000) as u8,
        ((v / 0x1000000000000) % 0x100) as u8,
        ((v / 0x10000000000) % 0x100) as u8,
        ((v / 0x100000000) % 0x100) as u8,
        ((v / 0x1000000) % 0x100) as u8,
        ((v / 0x10000) % 0x100) as u8,
        ((v / 0x100) % 0x100) as u8,
        (v % 0x100) as u8,
    ]
}

/// Encodes a value as the byte string stored by engines whose values are bytes.
pub fn encode_value(v: u64) -> (r: [u8; 8])
    ensures
        r@ == be_bytes(v),
{
    let r: [u8; 8] = [
        (v >> 56u64) as u8,
        ((v >> 48u64) & 0xff) as u8,
        ((v >> 40u64) & 0xff) as u8,
        ((v >> 32u64) & 0xff) as u8,
        ((v >> 24u64) & 0xff) as u8,
        ((v >> 16u64) & 0xff) as u8,
        ((v >> 8u64) & 0xff) as u8,
        (v & 0xff) as u8,
    ];
    assert((v >> 56u64) == v / 0x100000000000000) by (bit_vector);
    assert(((v >> 48u64) & 0xff) == (v / 0x1000000000000) % 0x100) by (bit_vector);
    assert(((v >> 40u64) & 0xff) == (v / 0x10000000000) % 0x100) by (bit_vector);
    assert(((v >> 32u64) & 0xff) == (v / 0x100000000) % 0x100) by (bit_vector);
    assert(((v >> 24u64) & 0xff) == (v / 0x1000000) % 0x100) by (bit_vector);
    assert(((v >> 16u64) & 0xff) == (v / 0x10000) % 0x100) by (bit_vector);
    assert(((v >> 8u64) & 0xff) == (v / 0x100) % 0x100) by (bit_vector);
    assert((v & 0xff) == v % 0x100) by (bit_vector);
    assert(r@ =~= be_bytes(v));
    r
}

impl KvPair {
    /// The value as stored by engines whose values are bytes.
    pub fn value_bytes(&self) -> (r: [u8; 8])
        ensures
            r@ == be_bytes(self.value),
    {
        encode_value(self.value)
    }
}

/// Relies on rand::random for `[u8; 32]`: 32 bytes from the thread-local
/// generator. Nothing is promised of their contents.
#[verifier::external_body]
fn random_key() -> (r: [u8; 32]) {
    rand::random::<[u8; 32]>()
}

/// Relies on rand::random for `u64`: a uniformly drawn value from the
/// thread-local generator. Nothing is promised of it.
#[verifier::external_body]
fn random_value() -> (r: u64) {
    rand::random::<u64>()
}

/// Draws a fresh pair: a uniformly random key and value. Keys are not
/// deduplicated, so two pairs of one run may share a key.
pub fn random_pair() -> (r: KvPair) {
    let key = random_key();
    let value = random_value();
    KvPair { key, value }
}

} // verus!
