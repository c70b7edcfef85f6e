//! Adaptor whose output length is a const parameter.
use vstd::prelude::*;
use vstd::string::*;
use crate::core_api::{HashState, VariableOutputCore};

verus! {

/// The decimal digits of `n`, most significant first.
pub open spec fn decimal(n: nat) -> Seq<char>
    decreases n,
{
    if n < 10 {
        seq![digit_char(n)]
    } else {
        decimal(n / 10) + seq![digit_char(n % 10)]
    }
}

pub open spec fn digit_char(d: nat) -> char {
    (('0' as u8) + (d as u8)) as char
}

fn digit_str(d: usize) -> (r: &'static str)
    requires
        d < 10,
    ensures
        r@ == seq![digit_char(d as nat)],
{
    proof {
        reveal_strlit("0");
        reveal_strlit("1");
        reveal_strlit("2");
        reveal_strlit("3");
        reveal_strlit("4");
        reveal_strlit("5");
        reveal_strlit("6");
        reveal_strlit("7");
        reveal_strlit("8");
        reveal_strlit("9");
    }
    match d {
        0 => "0",
        1 => "1",
        2 => "2",
        3 => "3",
        4 => "4",
        5 => "5",
        6 => "6",
        7 => "7",
        8 => "8",
        _ => "9",
    }
}

/// Appends the decimal digits of `n` to `s`.
fn push_decimal(s: &mut String, n: usize)
    ensures
        final(s)@ == old(s)@ + decimal(n as nat),
    decreases n,
{
    if n >= 10 {
        push_decimal(s, n / 10);
    }
    s.append(digit_str(n % 10));
}

/// Wrapper around a [`VariableOutputCore`] whose output size `OUT` is fixed
/// at compile time.  It forwards whole blocks to the core; the caller keeps
/// the partial-block buffer.
pub struct CtVariableCoreWrapper<T: VariableOutputCore, const OUT: usize> {
    inner: T,
}

impl<T: VariableOutputCore, const OUT: usize> View for CtVariableCoreWrapper<T, OUT> {
    type V = HashState;

    closed spec fn view(&self) -> HashState {
        HashState { output_size: self.inner.output_size_of(), message: self.inner.absorbed() }
    }
}

/// Whether `OUT` is a length the wrapped algorithm can be built with.
pub open spec fn valid_const_size<T: VariableOutputCore>(out: nat) -> bool {
    0 < out <= T::spec_max_output_size() && T::spec_accepts(out)
}

impl<T: VariableOutputCore, const OUT: usize> CtVariableCoreWrapper<T, OUT> {
    /// `OUT` is within the algorithm's bounds and the core was built for it.
    pub closed spec fn wf(&self) -> bool {
        &&& valid_const_size::<T>(OUT as nat)
        &&& self.inner.output_size_of() == OUT
    }

    /// Builds the core for `OUT` bytes of output; the bound on `OUT` is a
    /// precondition, so construction cannot fail.
    pub fn default() -> (r: Self)
        requires
            valid_const_size::<T>(OUT as nat),
        ensures
            r.wf(),
            r@ == HashState::fresh(OUT as nat),
    {
        CtVariableCoreWrapper { inner: T::new(OUT).unwrap() }
    }

    pub fn block_size() -> (r: usize)
        ensures
            r == T::spec_block_size(),
            0 < r < 256,
    {
        T::block_size()
    }

    /// Forwards whole blocks to the core.
    pub fn update_blocks(&mut self, blocks: &[u8])
        requires
            old(self).wf(),
            blocks@.len() % T::spec_block_size() == 0,
        ensures
            final(self).wf(),
            final(self)@ == old(self)@.absorb(blocks@),
    {
        self.inner.update_blocks(blocks);
    }

    /// Finishes the computation over the blocks seen and `remainder`, filling
    /// `out`, which holds exactly `OUT` bytes.
    pub fn finalize_fixed_core(&mut self, remainder: &[u8], out: &mut [u8])
        requires
            old(self).wf(),
            remainder@.len() < T::spec_block_size(),
            old(out)@.len() == OUT,
        ensures
            final(self).wf(),
            final(out)@.len() == OUT,
            final(out)@ == T::spec_digest(OUT as nat, old(self)@.message + remainder@),
    {
        self.inner.finalize_variable_core(remainder, out);
    }

    /// Returns to the freshly constructed state.
    pub fn reset(&mut self)
        requires
            old(self).wf(),
        ensures
            final(self).wf(),
            final(self)@ == HashState::fresh(OUT as nat),
    {
        *self = Self::default();
    }

    /// An independent copy of the state.
    pub fn duplicate(&self) -> (r: Self)
        requires
            self.wf(),
        ensures
            r.wf(),
            r@ == self@,
    {
        CtVariableCoreWrapper { inner: self.inner.duplicate() }
    }

    /// The identifier `<inner name>_<OUT>`.
    pub fn alg_name() -> (r: String)
        ensures
            r@ == T::spec_name() + "_"@ + decimal(OUT as nat),
    {
        let mut s = T::alg_name();
        s.append("_");
        push_decimal(&mut s, OUT);
        s
    }
}

} // verus!
