use vstd::prelude::*;

verus! {

/// A computation over an ordered stream of bytes (a checksum, a digest, a count).
///
/// An accumulator is described by what it would report after taking in any
/// further sequence of chunks, so that `update` can be specified as "all of
/// this chunk, in order, and nothing else".
pub trait Check: Sized {
    /// The result type of the computation.
    type Output;

    /// What `output` returns once `chunks` have been passed to `update`, one
    /// call per chunk and in order, starting from this state.
    spec fn output_after(&self, chunks: Seq<Seq<u8>>) -> Self::Output;

    /// Whether `len` more bytes can be taken in from this state. A counter held
    /// in a machine word has a ceiling; most accumulators have none.
    spec fn has_room(&self, len: nat) -> bool;

    /// Whether `len` more bytes can be taken in.
    fn can_take(&self, len: usize) -> (r: bool)
        ensures
            r == self.has_room(len as nat),
    ;

    /// Takes in every byte of `buf`, in order: afterwards the state behaves as
    /// the old one would with `buf` ahead of whatever follows.
    fn update(&mut self, buf: &[u8])
        requires
            old(self).has_room(buf@.len()),
        ensures
            forall|rest: Seq<Seq<u8>>| #[trigger]
                final(self).output_after(rest) == old(self).output_after(seq![buf@] + rest),
            forall|len: nat| #[trigger]
                final(self).has_room(len) == old(self).has_room(buf@.len() + len),
    ;

    /// The result of the computation so far; the state is left as it was.
    fn output(&self) -> (r: Self::Output)
        ensures
            r == self.output_after(Seq::empty()),
    ;
}

/// The current result of an accumulator.
pub open spec fn output_of<C: Check>(c: C) -> C::Output {
    c.output_after(Seq::empty())
}

/// `after` is `before` with `chunk` taken in: whatever follows, it behaves as
/// `before` would with `chunk` placed ahead of it.
pub open spec fn absorbed<C: Check>(before: C, after: C, chunk: Seq<u8>) -> bool {
    &&& forall|rest: Seq<Seq<u8>>| #[trigger]
        after.output_after(rest) == before.output_after(seq![chunk] + rest)
    &&& forall|len: nat| #[trigger]
        after.has_room(len) == before.has_room(chunk.len() + len)
}

/// `states[i + 1]` is `states[i]` with `chunks[i]` taken in, for every `i`.
pub open spec fn fed_in_order<C: Check>(states: Seq<C>, chunks: Seq<Seq<u8>>) -> bool {
    &&& states.len() == chunks.len() + 1
    &&& forall|i: int|
        0 <= i < chunks.len() ==> #[trigger] absorbed(states[i], states[i + 1], chunks[i])
}

/// The result from this state depends on the bytes taken in, not on where the
/// chunk boundaries fall.
pub open spec fn chunking_independent<C: Check>(c: C) -> bool {
    forall|chunks: Seq<Seq<u8>>| #[trigger]
        c.output_after(chunks) == c.output_after(seq![chunks.flatten()])
}

/// After a run of updates, an accumulator behaves as its starting state would
/// with all the chunks of the run ahead of whatever follows.
pub proof fn lemma_fed_output<C: Check>(states: Seq<C>, chunks: Seq<Seq<u8>>, rest: Seq<Seq<u8>>)
    requires
        fed_in_order(states, chunks),
    ensures
        states.last().output_after(rest) == states[0].output_after(chunks + rest),
    decreases chunks.len(),
{
    if chunks.len() == 0 {
        assert(chunks + rest =~= rest);
    } else {
        let k = chunks.len() - 1;
        let states0 = states.drop_last();
        let chunks0 = chunks.drop_last();
        assert(fed_in_order(states0, chunks0)) by {
            assert forall|i: int| 0 <= i < chunks0.len() implies #[trigger] absorbed(
                states0[i],
                states0[i + 1],
                chunks0[i],
            ) by {
                assert(absorbed(states[i], states[i + 1], chunks[i]));
            }
        }
        assert(absorbed(states[k], states[k + 1], chunks[k]));
        lemma_fed_output(states0, chunks0, seq![chunks[k]] + rest);
        assert(chunks0 + (seq![chunks[k]] + rest) =~= chunks + rest);
    }
}

/// Chunking independence: for an accumulator whose result does not depend on
/// chunk boundaries, feeding a byte sequence in any number of chunks, one
/// update per chunk, gives the same output as feeding it in one update.
pub proof fn lemma_chunking_independence<C: Check>(
    states: Seq<C>,
    chunks: Seq<Seq<u8>>,
    whole: C,
)
    requires
        fed_in_order(states, chunks),
        absorbed(states[0], whole, chunks.flatten()),
        chunking_independent(states[0]),
    ensures
        output_of(states.last()) == output_of(whole),
{
    lemma_fed_output(states, chunks, Seq::empty());
    assert(chunks + Seq::<Seq<u8>>::empty() =~= chunks);
    assert(seq![chunks.flatten()] + Seq::<Seq<u8>>::empty() =~= seq![chunks.flatten()]);
    assert(whole.output_after(Seq::empty()) == states[0].output_after(
        seq![chunks.flatten()] + Seq::<Seq<u8>>::empty(),
    ));
}

} // verus!
