use vstd::prelude::*;

verus! {

/// Number of samples in one block of audio.
pub const BUFFER_LEN: usize = 64;

/// One fixed-length block of audio samples.
///
/// A buffer is a plain value: once built it is only read, and handing it
/// over moves or copies it whole.
#[derive(Clone, Copy)]
pub struct FixedBuffer<S> {
    pub samples: [S; 64],
}

impl<S: Copy> FixedBuffer<S> {
    /// The samples, in order.
    pub open spec fn view(&self) -> Seq<S> {
        self.samples@
    }

    /// A buffer whose every sample is `value` (silence, for a zero value).
    pub fn filled(value: S) -> (r: Self)
        ensures
            r@ == Seq::new(BUFFER_LEN as nat, |_i: int| value),
    {
        let samples: [S; 64] = [value; 64];
        let r = FixedBuffer { samples };
        assert(r@ =~= Seq::new(BUFFER_LEN as nat, |_i: int| value));
        r
    }

    /// Builds a buffer from exactly `BUFFER_LEN` samples, in order; `None`
    /// for any other number of samples.
    pub fn from_vec(v: &Vec<S>) -> (r: Option<Self>)
        ensures
            r is Some <==> v@.len() == BUFFER_LEN,
            r is Some ==> r->0@ == v@,
    {
        if v.len() != BUFFER_LEN {
            return None;
        }
        let mut samples: [S; 64] = [v[0]; 64];
        let mut i: usize = 0;
        while i < BUFFER_LEN
            invariant
                v@.len() == BUFFER_LEN,
                i <= BUFFER_LEN,
                forall|j: int| 0 <= j < i ==> samples@[j] == v@[j],
            decreases BUFFER_LEN - i,
        {
            samples[i] = v[i];
            i = i + 1;
        }
        let r = FixedBuffer { samples };
        assert(r@ =~= v@);
        Some(r)
    }

    /// The sample at position `i`.
    pub fn sample(&self, i: usize) -> (r: S)
        requires
            i < BUFFER_LEN,
        ensures
            r == self@[i as int],
    {
        self.samples[i]
    }
}

} // verus!
