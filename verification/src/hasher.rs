use std::collections::hash_map::DefaultHasher;
use std::hash::Hasher;
use vstd::prelude::*;
use vstd::std_specs::hash::DefaultHasherAdditionalSpecFns;

verus! {

/// Byte accumulator that erased keys feed their hash stream into.
///
/// The view of a `HasherMut` is the history of `write` calls made so far,
/// each call one chunk of bytes.  The digest returned by `finish` is a
/// function of that history alone, which is what the hash-consistency
/// arguments about erased keys rest on: two handles that write the same
/// chunks obtain the same digest.
pub struct HasherMut {
    inner: DefaultHasher,
}

impl View for HasherMut {
    type V = Seq<Seq<u8>>;

    closed spec fn view(&self) -> Seq<Seq<u8>> {
        self.inner@
    }
}

impl HasherMut {
    /// A fresh accumulator with an empty write history.
    pub fn new() -> (r: HasherMut)
        ensures
            r@ == Seq::<Seq<u8>>::empty(),
    {
        HasherMut { inner: DefaultHasher::new() }
    }

    /// Append one chunk of bytes to the accumulator.
    pub fn write(&mut self, bytes: &[u8])
        ensures
            final(self)@ == old(self)@.push(bytes@),
    {
        self.inner.write(bytes);
    }

    /// The digest of everything written so far.
    pub fn finish(&self) -> (r: u64)
        ensures
            r == DefaultHasher::spec_finish(self@),
    {
        self.inner.finish()
    }
}

} // verus!
