use vstd::prelude::*;

use crate::check::{chunking_independent, fed_in_order, lemma_fed_output, output_of, Check};

verus! {

/// An accumulator that counts the bytes passed through it.
#[derive(Debug)]
pub struct InnerCounter(usize);

impl View for InnerCounter {
    type V = nat;

    /// The number of bytes counted so far.
    closed spec fn view(&self) -> nat {
        self.0 as nat
    }
}

impl Default for InnerCounter {
    fn default() -> (r: Self)
        ensures
            r@ == 0,
    {
        InnerCounter(0)
    }
}

/// The bytes of one chunk followed by the rest, flattened, are that chunk
/// followed by the rest flattened.
proof fn lemma_flatten_cons(chunk: Seq<u8>, rest: Seq<Seq<u8>>)
    ensures
        (seq![chunk] + rest).flatten() == chunk + rest.flatten(),
{
    let all = seq![chunk] + rest;
    assert(all.drop_first() =~= rest);
    assert(all[0] == chunk);
}

impl Check for InnerCounter {
    type Output = usize;

    open spec fn output_after(&self, chunks: Seq<Seq<u8>>) -> usize {
        (self@ + chunks.flatten().len()) as usize
    }

    open spec fn has_room(&self, len: nat) -> bool {
        self@ + len <= usize::MAX
    }

    fn can_take(&self, len: usize) -> (r: bool) {
        len <= usize::MAX - self.0
    }

    fn update(&mut self, buf: &[u8]) {
        self.0 = self.0 + buf.len();
        proof {
            assert forall|rest: Seq<Seq<u8>>| #[trigger]
                self.output_after(rest) == old(self).output_after(seq![buf@] + rest) by {
                lemma_flatten_cons(buf@, rest);
            }
        }
    }

    fn output(&self) -> (r: usize) {
        proof {
            assert(Seq::<Seq<u8>>::empty().flatten() =~= Seq::<u8>::empty());
        }
        self.0
    }
}

impl InnerCounter {
    /// Every counter has a result that does not depend on where chunk
    /// boundaries fall: it is the count so far plus the bytes taken in.
    pub proof fn lemma_chunking_independent(self)
        ensures
            chunking_independent(self),
    {
        assert forall|chunks: Seq<Seq<u8>>| #[trigger]
            self.output_after(chunks) == self.output_after(seq![chunks.flatten()]) by {
            lemma_flatten_cons(chunks.flatten(), Seq::empty());
            assert(seq![chunks.flatten()] + Seq::<Seq<u8>>::empty() =~= seq![chunks.flatten()]);
            assert(Seq::<Seq<u8>>::empty().flatten() =~= Seq::<u8>::empty());
            assert(chunks.flatten() + Seq::<u8>::empty() =~= chunks.flatten());
        }
    }

    /// Byte-count correctness: a counter that starts at zero and takes in a
    /// run of chunks, in any chunking, reports the total number of bytes.
    pub proof fn lemma_counts_all(states: Seq<InnerCounter>, chunks: Seq<Seq<u8>>)
        requires
            fed_in_order(states, chunks),
            states[0]@ == 0,
            states[0].has_room(chunks.flatten().len()),
        ensures
            output_of(states.last()) == chunks.flatten().len(),
    {
        lemma_fed_output(states, chunks, Seq::empty());
        assert(chunks + Seq::<Seq<u8>>::empty() =~= chunks);
    }
}

} // verus!
