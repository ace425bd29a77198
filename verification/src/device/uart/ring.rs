//! The ring of received bytes.
use vstd::prelude::*;

verus! {

/// The number of bytes that the ring has room for.
pub const BUFFER_SIZE: usize = 256;

/// A ring of bytes in an array.
#[verifier::external_body]
pub struct ByteRing {
    ring: arraydeque::ArrayDeque<u8, 256>,
}

/// The bytes in a ring, the oldest first.
pub uninterp spec fn ring_bytes(ring: ByteRing) -> Seq<u8>;

/// `arraydeque::ArrayDeque::new`: a ring without bytes.
#[verifier::external_body]
pub(crate) fn ring_new() -> (ring: ByteRing)
    ensures
        ring_bytes(ring) == Seq::<u8>::empty(),
{
    ByteRing { ring: arraydeque::ArrayDeque::new() }
}

/// `arraydeque::ArrayDeque::push_back`, which does not overwrite: the byte comes last, unless the
/// ring is full, which is reported and leaves the ring as it is.
#[verifier::external_body]
pub(crate) fn ring_push_back(ring: &mut ByteRing, byte: u8) -> (stored: bool)
    ensures
        stored <==> ring_bytes(*old(ring)).len() < BUFFER_SIZE,
        stored ==> ring_bytes(*final(ring)) == ring_bytes(*old(ring)).push(byte),
        !stored ==> ring_bytes(*final(ring)) == ring_bytes(*old(ring)),
{
    ring.ring.push_back(byte).is_ok()
}

/// `arraydeque::ArrayDeque::pop_front`: the oldest byte, which leaves the ring, or `None` where
/// there is none.
#[verifier::external_body]
pub(crate) fn ring_pop_front(ring: &mut ByteRing) -> (byte: Option<u8>)
    ensures
        match byte {
            Some(b) => {
                &&& ring_bytes(*old(ring)).len() > 0
                &&& b == ring_bytes(*old(ring)).first()
                &&& ring_bytes(*final(ring)) == ring_bytes(*old(ring)).drop_first()
            },
            None => {
                &&& ring_bytes(*old(ring)).len() == 0
                &&& ring_bytes(*final(ring)) == ring_bytes(*old(ring))
            },
        },
{
    ring.ring.pop_front()
}

} // verus!
