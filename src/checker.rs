use vstd::prelude::*;

use crate::check::{absorbed, fed_in_order, lemma_fed_output, output_of, Check};
use crate::counter::InnerCounter;

verus! {

/// An accumulator paired with an inner value that handles bytes (usually a
/// reader or a writer). Every transfer that the inner value confirms is fed,
/// exactly as confirmed, to the accumulator.
///
/// The accumulator can fall out of step with the bytes that really moved if
/// the inner value buffers them and execution stops before a flush, or if a
/// failed read advances it without reporting the bytes read.
pub struct Checker<C: Check, T> {
    checker: C,
    inner: T,
}

/// The accumulators of a run of decorator states.
pub open spec fn accumulators<C: Check, T>(states: Seq<Checker<C, T>>) -> Seq<C> {
    states.map_values(|d: Checker<C, T>| d.accumulator())
}

impl<C: Check, T> Checker<C, T> {
    /// The accumulator held.
    pub closed spec fn accumulator(&self) -> C {
        self.checker
    }

    /// The inner value held.
    pub closed spec fn inner(&self) -> T {
        self.inner
    }

    /// Builds a decorator that owns `checker` and `inner`.
    pub fn new(checker: C, inner: T) -> (r: Self)
        ensures
            r.accumulator() == checker,
            r.inner() == inner,
    {
        Checker { checker, inner }
    }

    /// Inserts a new accumulator, returning the old one.
    pub fn replace_checker(&mut self, new: C) -> (r: C)
        ensures
            r == old(self).accumulator(),
            final(self).accumulator() == new,
            final(self).inner() == old(self).inner(),
    {
        let mut new = new;
        core::mem::swap(&mut self.checker, &mut new);
        new
    }

    /// Inserts a new inner value, returning the old one.
    pub fn replace_inner(&mut self, inner: T) -> (r: T)
        ensures
            r == old(self).inner(),
            final(self).inner() == inner,
            final(self).accumulator() == old(self).accumulator(),
    {
        let mut inner = inner;
        core::mem::swap(&mut self.inner, &mut inner);
        inner
    }

    /// Takes the decorator apart and builds a new one around the same inner
    /// value, so that the accumulator can change type. Returns the old
    /// accumulator beside it.
    pub fn rebuild_with_checker<C2: Check>(self, hasher: C2) -> (r: (Checker<C2, T>, C))
        ensures
            r.0.accumulator() == hasher,
            r.0.inner() == self.inner(),
            r.1 == self.accumulator(),
    {
        let (h1, inner) = self.into_parts();
        (Checker::new(hasher, inner), h1)
    }

    /// Takes the decorator apart and builds a new one around the same
    /// accumulator, so that the inner value can change type. Returns the old
    /// inner value beside it.
    pub fn rebuild_with_inner<T2>(self, inner: T2) -> (r: (Checker<C, T2>, T))
        ensures
            r.0.accumulator() == self.accumulator(),
            r.0.inner() == inner,
            r.1 == self.inner(),
    {
        let (h, inner1) = self.into_parts();
        (Checker::new(h, inner), inner1)
    }

    /// Takes the decorator apart into its accumulator and its inner value.
    pub fn into_parts(self) -> (r: (C, T))
        ensures
            r.0 == self.accumulator(),
            r.1 == self.inner(),
    {
        (self.checker, self.inner)
    }

    /// The current result of the accumulator for all bytes transferred.
    pub fn output(&self) -> (r: C::Output)
        ensures
            r == output_of(self.accumulator()),
    {
        self.checker.output()
    }

    /// Whether the accumulator can take in `len` more bytes, as
    /// `record_transfer` requires of a confirmed count.
    pub fn has_room_for(&self, len: usize) -> (r: bool)
        ensures
            r == self.accumulator().has_room(len as nat),
    {
        self.checker.can_take(len)
    }

    /// The inner value, to read from, write to or flush; the accumulator is
    /// left as it is.
    pub fn inner_mut(&mut self) -> (r: &mut T)
        ensures
            *r == old(self).inner(),
            final(self).inner() == *final(r),
            final(self).accumulator() == old(self).accumulator(),
    {
        &mut self.inner
    }

    /// Completes one read or write of the inner value. `buf` is the caller's
    /// buffer as the inner call left it (filled by a read, or the bytes handed
    /// to a write), and `outcome` is what that call returned.
    ///
    /// On success with `n` bytes, exactly the first `n` bytes of `buf` are fed
    /// to the accumulator, however many were asked for. On failure the
    /// accumulator is left as it was. Either way the outcome is returned as it
    /// came.
    pub fn record_transfer<E>(&mut self, buf: &[u8], outcome: Result<usize, E>) -> (r: Result<
        usize,
        E,
    >)
        requires
            outcome matches Ok(n) ==> n <= buf@.len() && old(self).accumulator().has_room(n as nat),
        ensures
            r == outcome,
            final(self).inner() == old(self).inner(),
            match outcome {
                Ok(n) => absorbed(
                    old(self).accumulator(),
                    final(self).accumulator(),
                    buf@.take(n as int),
                ),
                Err(_) => final(self).accumulator() == old(self).accumulator(),
            },
    {
        match outcome {
            Ok(n) => {
                let done = &buf[0..n];
                proof {
                    assert(done@ =~= buf@.take(n as int));
                }
                self.checker.update(done);
                Ok(n)
            },
            Err(e) => Err(e),
        }
    }

    /// Swapping keeps history and starts the future afresh: after a run of
    /// transfers and a `replace_checker`, the accumulator handed back reports
    /// the result for the bytes before the swap, and after a further run the
    /// decorator reports the new accumulator's result for the bytes after it.
    pub proof fn lemma_replace_splits_history(
        before: Seq<Self>,
        chunks_before: Seq<Seq<u8>>,
        returned: C,
        new: C,
        after: Seq<Self>,
        chunks_after: Seq<Seq<u8>>,
    )
        requires
            fed_in_order(accumulators(before), chunks_before),
            returned == before.last().accumulator(),
            after.len() > 0,
            after[0].accumulator() == new,
            fed_in_order(accumulators(after), chunks_after),
        ensures
            output_of(returned) == before[0].accumulator().output_after(chunks_before),
            output_of(after.last().accumulator()) == new.output_after(chunks_after),
    {
        let acc_before = accumulators(before);
        let acc_after = accumulators(after);
        lemma_fed_output(acc_before, chunks_before, Seq::empty());
        lemma_fed_output(acc_after, chunks_after, Seq::empty());
        assert(chunks_before + Seq::<Seq<u8>>::empty() =~= chunks_before);
        assert(chunks_after + Seq::<Seq<u8>>::empty() =~= chunks_after);
        assert(acc_before.last() == before.last().accumulator());
        assert(acc_after.last() == after.last().accumulator());
    }

    /// Taking a decorator apart and building one from the same parts gives
    /// the same decorator back, with the same output and the same inner value.
    pub proof fn lemma_parts_round_trip(self, rebuilt: Self)
        requires
            rebuilt.accumulator() == self.accumulator(),
            rebuilt.inner() == self.inner(),
        ensures
            rebuilt == self,
            output_of(rebuilt.accumulator()) == output_of(self.accumulator()),
    {
    }
}

} // verus!

verus! {

impl<C: Default + Check, T> Checker<C, T> {
    /// Uses the given inner value and the accumulator type's default state.
    pub fn new_default(inner: T) -> (r: Self)
        ensures
            call_ensures(C::default, (), r.accumulator()),
            r.inner() == inner,
    {
        Checker::new(C::default(), inner)
    }
}

/// A decorator that counts the bytes passed through it, useful around readers
/// and writers before or after they are wrapped in compressors.
pub type Counter<T> = Checker<InnerCounter, T>;

} // verus!
