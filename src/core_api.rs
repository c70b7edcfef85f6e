//! The contract that a wrapped algorithm meets, and the state model shared
//! by both adaptors.
use vstd::prelude::*;

verus! {

/// The requested output length is zero, above the algorithm's maximum, or
/// otherwise refused by the algorithm.
#[derive(Clone, Copy, Debug, PartialEq, Eq)]
pub struct InvalidOutputSize;

/// What an adaptor has seen: the configured output length and every byte fed
/// since construction or the last reset.
pub struct HashState {
    pub output_size: nat,
    pub message: Seq<u8>,
}

impl HashState {
    /// The state of a freshly constructed adaptor.
    pub open spec fn fresh(output_size: nat) -> HashState {
        HashState { output_size, message: Seq::empty() }
    }

    /// The state after feeding `data`.
    pub open spec fn absorb(self, data: Seq<u8>) -> HashState {
        HashState { output_size: self.output_size, message: self.message + data }
    }

    /// The state after feeding each chunk in turn.
    pub open spec fn absorb_all(self, chunks: Seq<Seq<u8>>) -> HashState
        decreases chunks.len(),
    {
        if chunks.len() == 0 {
            self
        } else {
            self.absorb(chunks[0]).absorb_all(chunks.drop_first())
        }
    }
}

/// A hashing core that can emit a caller-chosen number of output bytes.
///
/// The core consumes whole blocks only; buffering of partial blocks is the
/// adaptor's job.  Its meaning is `spec_digest`: the output for a given
/// output length and message.
pub trait VariableOutputCore: Sized {
    /// Bytes in one block.
    spec fn spec_block_size() -> nat;

    /// The largest output length the algorithm can produce.
    spec fn spec_max_output_size() -> nat;

    /// Whether the algorithm itself accepts this output length.
    spec fn spec_accepts(output_size: nat) -> bool;

    /// The output of the algorithm for `message` at `output_size` bytes.
    spec fn spec_digest(output_size: nat, message: Seq<u8>) -> Seq<u8>;

    /// The algorithm's identifier.
    spec fn spec_name() -> Seq<char>;

    /// The output length this core was constructed with.
    spec fn output_size_of(&self) -> nat;

    /// Every byte consumed since construction.
    spec fn absorbed(&self) -> Seq<u8>;

    fn block_size() -> (r: usize)
        ensures
            r == Self::spec_block_size(),
            0 < r < 256,
    ;

    fn max_output_size() -> (r: usize)
        ensures
            r == Self::spec_max_output_size(),
    ;

    fn new(output_size: usize) -> (r: Result<Self, InvalidOutputSize>)
        ensures
            r is Ok <==> Self::spec_accepts(output_size as nat),
            r matches Ok(c) ==> c.output_size_of() == output_size && c.absorbed() == Seq::<u8>::empty(),
    ;

    /// Consumes `blocks`, a whole number of blocks laid end to end.
    fn update_blocks(&mut self, blocks: &[u8])
        requires
            blocks@.len() % Self::spec_block_size() == 0,
        ensures
            final(self).output_size_of() == old(self).output_size_of(),
            final(self).absorbed() == old(self).absorbed() + blocks@,
    ;

    /// Pads `remainder` (less than a block), finishes the computation and
    /// writes the whole output into `out`.  The core is spent afterwards.
    fn finalize_variable_core(&mut self, remainder: &[u8], out: &mut [u8])
        requires
            remainder@.len() < Self::spec_block_size(),
            old(out)@.len() == old(self).output_size_of(),
        ensures
            final(self).output_size_of() == old(self).output_size_of(),
            final(out)@.len() == old(out)@.len(),
            final(out)@ == Self::spec_digest(
                old(self).output_size_of(),
                old(self).absorbed() + remainder@,
            ),
    ;

    /// An independent copy of the state.
    fn duplicate(&self) -> (r: Self)
        ensures
            r.output_size_of() == self.output_size_of(),
            r.absorbed() == self.absorbed(),
    ;

    fn alg_name() -> (r: String)
        ensures
            r@ == Self::spec_name(),
    ;
}

/// Feeding a message chunk by chunk leaves the same state as feeding it in
/// one piece, whatever the partition.
pub proof fn lemma_chunk_invariance(start: HashState, chunks: Seq<Seq<u8>>)
    ensures
        start.absorb_all(chunks) == start.absorb(chunks.flatten()),
    decreases chunks.len(),
{
    if chunks.len() == 0 {
        assert(start.message + Seq::<u8>::empty() == start.message);
    } else {
        lemma_chunk_invariance(start.absorb(chunks[0]), chunks.drop_first());
        assert(start.message + chunks[0] + chunks.drop_first().flatten() == start.message + (chunks[0]
            + chunks.drop_first().flatten()));
    }
}

} // verus!
