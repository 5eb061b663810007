use std::collections::hash_map::DefaultHasher;
use std::hash::Hasher;
use vstd::prelude::*;
use vstd::std_specs::hash::DefaultHasherAdditionalSpecFns;

use crate::check::Check;
use crate::checker::Checker;

verus! {

/// A `DefaultHasher` is an accumulator by direct delegation: `update` writes
/// the chunk, `output` reads the digest without finishing the hasher.
///
/// Its state is the list of chunks written so far. The standard library does
/// not promise that adjacent writes are merged, so its result is stated over
/// that list, chunk boundaries included.
impl Check for DefaultHasher {
    type Output = u64;

    open spec fn output_after(&self, chunks: Seq<Seq<u8>>) -> u64 {
        DefaultHasher::spec_finish(self@ + chunks)
    }

    open spec fn has_room(&self, len: nat) -> bool {
        true
    }

    fn can_take(&self, len: usize) -> (r: bool) {
        true
    }

    fn update(&mut self, buf: &[u8]) {
        self.write(buf);
        proof {
            assert forall|rest: Seq<Seq<u8>>| #[trigger]
                self.output_after(rest) == old(self).output_after(seq![buf@] + rest) by {
                assert(self@ + rest =~= old(self)@ + (seq![buf@] + rest));
            }
        }
    }

    fn output(&self) -> (r: u64) {
        proof {
            assert(self@ + Seq::<Seq<u8>>::empty() =~= self@);
        }
        self.finish()
    }
}

impl<T> Checker<DefaultHasher, T> {
    /// Uses the given inner value and an empty `DefaultHasher` as the
    /// accumulator.
    pub fn new_default_hasher(inner: T) -> (r: Self)
        ensures
            r.accumulator()@ == Seq::<Seq<u8>>::empty(),
            r.inner() == inner,
    {
        Checker::new(DefaultHasher::new(), inner)
    }

    /// Replaces the hasher with an empty `DefaultHasher`, returning the old
    /// one.
    pub fn reset_hasher(&mut self) -> (r: DefaultHasher)
        ensures
            r == old(self).accumulator(),
            final(self).accumulator()@ == Seq::<Seq<u8>>::empty(),
            final(self).inner() == old(self).inner(),
    {
        self.replace_checker(DefaultHasher::new())
    }
}

} // verus!
