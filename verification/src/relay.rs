//! The streaming pass-through: a body is forwarded as a sequence of byte
//! chunks, each handed on exactly as it arrived.
//!
//! A `BodyRelay` carries no bytes at run time — its only field is ghost — so
//! forwarding a body of any size keeps peak memory bounded by the size of
//! one chunk. The ghost field records the chunks forwarded so far, which is
//! what lets a caller conclude that the bytes that went out are exactly the
//! bytes that came in, in order.

use vstd::prelude::*;

verus! {

/// The bytes of a chunk sequence, in order: the body that the chunks spell
/// out when streamed one after the other.
pub open spec fn concat_chunks(cs: Seq<Seq<u8>>) -> Seq<u8>
    decreases cs.len(),
{
    if cs.len() == 0 {
        Seq::empty()
    } else {
        concat_chunks(cs.drop_last()) + cs.last()
    }
}

/// Appending one chunk appends exactly its bytes to the body.
pub proof fn lemma_concat_chunks_push(cs: Seq<Seq<u8>>, c: Seq<u8>)
    ensures
        concat_chunks(cs.push(c)) == concat_chunks(cs) + c,
{
    assert(cs.push(c).drop_last() =~= cs);
    assert(cs.push(c).last() == c);
}

/// The pass-through for one body. Both legs of the proxy use one: inbound
/// body chunks on the way upstream, upstream body chunks on the way back.
pub struct BodyRelay {
    /// The chunks forwarded so far, oldest first. Ghost: nothing is
    /// buffered.
    pub chunks: Ghost<Seq<Seq<u8>>>,
}

impl BodyRelay {
    /// The bytes this relay has forwarded so far, oldest first.
    pub open spec fn forwarded_bytes(self) -> Seq<u8> {
        concat_chunks(self.chunks@)
    }

    /// A relay that has forwarded nothing yet.
    pub fn new() -> (r: BodyRelay)
        ensures
            r.chunks@ == Seq::<Seq<u8>>::empty(),
            r.forwarded_bytes() == Seq::<u8>::empty(),
    {
        BodyRelay { chunks: Ghost(Seq::empty()) }
    }

    /// Forwards one chunk: the output is the input, byte for byte, and the
    /// forwarded body grows by exactly this chunk's bytes — never fewer,
    /// never more, never reordered.
    pub fn forward(&mut self, chunk: Vec<u8>) -> (out: Vec<u8>)
        ensures
            out@ == chunk@,
            final(self).chunks@ == old(self).chunks@.push(chunk@),
            final(self).forwarded_bytes() == old(self).forwarded_bytes() + chunk@,
    {
        proof {
            self.chunks@ = self.chunks@.push(chunk@);
            lemma_concat_chunks_push(old(self).chunks@, chunk@);
        }
        chunk
    }
}

} // verus!
