//! Adaptor whose output length is chosen, and validated, at construction.
use vstd::prelude::*;
use vstd::string::*;
use crate::core_api::{HashState, InvalidOutputSize, VariableOutputCore};

verus! {

/// Relies on std::io::Error only as the opaque error type in the results of
/// `write` and `flush`; no value of it is ever built or inspected.
#[verifier::external_type_specification]
#[verifier::external_body]
pub struct ExIoError(std::io::Error);

/// Wrapper around a [`VariableOutputCore`] which selects the output size at
/// run time and buffers partial blocks itself.
pub struct RtVariableCoreWrapper<T: VariableOutputCore> {
    core: T,
    buffer: Vec<u8>,
    output_size: usize,
}

impl<T: VariableOutputCore> View for RtVariableCoreWrapper<T> {
    type V = HashState;

    closed spec fn view(&self) -> HashState {
        HashState { output_size: self.output_size as nat, message: self.core.absorbed() + self.buffer@ }
    }
}

/// The bytes a runtime adaptor delivers once it has seen `state`.
pub open spec fn rt_digest<T: VariableOutputCore>(state: HashState) -> Seq<u8> {
    T::spec_digest(state.output_size, state.message)
}

/// Whether a runtime adaptor can be built with this output length.
pub open spec fn valid_output_size<T: VariableOutputCore>(n: nat) -> bool {
    0 < n <= T::spec_max_output_size() && T::spec_accepts(n)
}

impl<T: VariableOutputCore> RtVariableCoreWrapper<T> {
    /// The configuration is valid and fewer than a block's bytes wait in the
    /// buffer.
    pub closed spec fn wf(&self) -> bool {
        &&& valid_output_size::<T>(self.output_size as nat)
        &&& self.core.output_size_of() == self.output_size
        &&& self.buffer@.len() < T::spec_block_size()
    }

    /// The largest output length the wrapped algorithm supports.
    pub fn max_output_size() -> (r: usize)
        ensures
            r == T::spec_max_output_size(),
    {
        T::max_output_size()
    }

    /// Builds an adaptor for `output_size` bytes of output; fails when that
    /// length is zero, above the maximum, or refused by the algorithm.
    pub fn new(output_size: usize) -> (r: Result<Self, InvalidOutputSize>)
        ensures
            r is Ok <==> valid_output_size::<T>(output_size as nat),
            r matches Ok(w) ==> w.wf() && w@ == HashState::fresh(output_size as nat),
    {
        if output_size == 0 || output_size > T::max_output_size() {
            return Err(InvalidOutputSize);
        }
        // the core's contract gives a positive block size, so the empty
        // buffer holds less than a block
        let _ = T::block_size();
        match T::new(output_size) {
            Ok(core) => {
                let w = RtVariableCoreWrapper { core, buffer: Vec::new(), output_size };
                assert(w@.message == Seq::<u8>::empty());
                Ok(w)
            },
            Err(e) => Err(e),
        }
    }

    /// The output length fixed at construction.
    pub fn output_size(&self) -> (r: usize)
        requires
            self.wf(),
        ensures
            r == self@.output_size,
    {
        self.output_size
    }

    /// Feeds `input`; every block that fills up goes to the core in order,
    /// and a trailing partial block stays buffered.
    pub fn update(&mut self, input: &[u8])
        requires
            old(self).wf(),
        ensures
            final(self).wf(),
            final(self)@ == old(self)@.absorb(input@),
    {
        let bs = T::block_size();
        let mut i: usize = 0;
        while i < input.len()
            invariant
                self.wf(),
                bs == T::spec_block_size(),
                i <= input@.len(),
                self@ == old(self)@.absorb(input@.subrange(0, i as int)),
            decreases input@.len() - i,
        {
            let ghost before = self@.message;
            self.buffer.push(input[i]);
            assert(self@.message == before + seq![input@[i as int]]);
            if self.buffer.len() == bs {
                proof {
                    vstd::arithmetic::div_mod::lemma_mod_self_0(bs as int);
                }
                self.core.update_blocks(self.buffer.as_slice());
                self.buffer.clear();
                assert(self@.message == self.core.absorbed() + Seq::<u8>::empty());
                assert(self@.message == before + seq![input@[i as int]]);
            }
            i += 1;
            assert(input@.subrange(0, i as int) == input@.subrange(0, i - 1) + seq![input@[i - 1]]);
            assert(old(self)@.message + input@.subrange(0, i as int) == (old(self)@.message
                + input@.subrange(0, i - 1)) + seq![input@[i - 1]]);
        }
        assert(input@.subrange(0, i as int) == input@);
    }

    /// Consumes the adaptor and hands exactly `output_size` bytes of output to
    /// `f`.
    pub fn finalize_variable<F: FnOnce(&[u8])>(self, f: F)
        requires
            self.wf(),
            forall|s: &[u8]| s@.len() == self@.output_size ==> f.requires((s,)),
        ensures
            exists|s: &[u8]|
                s@.len() == self@.output_size && s@ == rt_digest::<T>(self@) && f.ensures((s,), ()),
    {
        let mut w = self;
        let out = w.finish();
        f(out.as_slice());
    }

    /// Hands exactly `output_size` bytes of output to `f`, then returns to the
    /// freshly constructed state with the same output length.
    pub fn finalize_variable_reset<F: FnOnce(&[u8])>(&mut self, f: F)
        requires
            old(self).wf(),
            forall|s: &[u8]| s@.len() == old(self)@.output_size ==> f.requires((s,)),
        ensures
            exists|s: &[u8]|
                s@.len() == old(self)@.output_size && s@ == rt_digest::<T>(old(self)@) && f.ensures(
                    (s,),
                    (),
                ),
            final(self).wf(),
            final(self)@ == HashState::fresh(old(self)@.output_size),
    {
        let out = self.finish();
        f(out.as_slice());
        self.reset();
    }

    /// Runs the core's finalization over the buffered bytes; the core is spent
    /// afterwards, but the configuration stays valid.
    fn finish(&mut self) -> (r: Vec<u8>)
        requires
            old(self).wf(),
        ensures
            final(self).wf(),
            final(self)@.output_size == old(self)@.output_size,
            r@ == rt_digest::<T>(old(self)@),
            r@.len() == old(self)@.output_size,
    {
        let mut out: Vec<u8> = vec![0u8; self.output_size];
        self.core.finalize_variable_core(self.buffer.as_slice(), out.as_mut_slice());
        out
    }

    /// Discards everything fed so far and rebuilds the core with the same,
    /// already validated, output length.
    pub fn reset(&mut self)
        requires
            old(self).wf(),
        ensures
            final(self).wf(),
            final(self)@ == HashState::fresh(old(self)@.output_size),
    {
        if let Ok(core) = T::new(self.output_size) {
            self.core = core;
        }
        self.buffer.clear();
    }

    /// An independent copy: both go on from the same state without affecting
    /// each other.
    pub fn duplicate(&self) -> (r: Self)
        requires
            self.wf(),
        ensures
            r.wf(),
            r@ == self@,
    {
        RtVariableCoreWrapper {
            core: self.core.duplicate(),
            buffer: self.buffer.clone(),
            output_size: self.output_size,
        }
    }

    /// Byte-sink form of `update`: consumes all of `buf`.
    pub fn write(&mut self, buf: &[u8]) -> (r: std::io::Result<usize>)
        requires
            old(self).wf(),
        ensures
            final(self).wf(),
            final(self)@ == old(self)@.absorb(buf@),
            r matches Ok(n) && n == buf@.len(),
    {
        self.update(buf);
        Ok(buf.len())
    }

    /// Nothing is held back for output, so flushing always succeeds.
    pub fn flush(&mut self) -> (r: std::io::Result<()>)
        ensures
            r is Ok,
            *final(self) == *old(self),
    {
        Ok(())
    }

    /// Diagnostic text: the algorithm's name and an opaque marker, never the
    /// state.
    pub fn debug_text(&self) -> (r: String)
        ensures
            r@ == T::spec_name() + " { .. }"@,
    {
        let mut s = T::alg_name();
        s.append(" { .. }");
        s
    }
}

/// Resetting is as good as starting over: an adaptor reset with output
/// length `n`, and one freshly built with `n`, give the same output after
/// being fed the same chunks.
pub proof fn lemma_reset_equivalence<T: VariableOutputCore>(
    after_reset: HashState,
    fresh: HashState,
    n: nat,
    chunks: Seq<Seq<u8>>,
)
    requires
        after_reset == HashState::fresh(n),
        fresh == HashState::fresh(n),
    ensures
        rt_digest::<T>(after_reset.absorb_all(chunks)) == rt_digest::<T>(fresh.absorb_all(chunks)),
        rt_digest::<T>(after_reset.absorb_all(chunks)) == rt_digest::<T>(
            HashState::fresh(n).absorb(chunks.flatten()),
        ),
{
    crate::core_api::lemma_chunk_invariance(fresh, chunks);
}

/// A copy taken after `prefix` and the original are independent: whatever
/// each is fed afterwards, its output is that of a fresh adaptor fed `prefix`
/// followed by its own input.
pub proof fn lemma_duplicate_independence<T: VariableOutputCore>(
    n: nat,
    prefix: Seq<u8>,
    original: HashState,
    copy: HashState,
    left: Seq<u8>,
    right: Seq<u8>,
)
    requires
        original == HashState::fresh(n).absorb(prefix),
        copy == original,
    ensures
        rt_digest::<T>(original.absorb(left)) == rt_digest::<T>(HashState::fresh(n).absorb(prefix + left)),
        rt_digest::<T>(copy.absorb(right)) == rt_digest::<T>(HashState::fresh(n).absorb(prefix + right)),
{
    assert(Seq::<u8>::empty() + prefix + left == Seq::<u8>::empty() + (prefix + left));
    assert(Seq::<u8>::empty() + prefix + right == Seq::<u8>::empty() + (prefix + right));
}

} // verus!
