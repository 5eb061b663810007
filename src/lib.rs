//! Transparent byte-stream instrumentation: a [`Checker`] pairs an accumulator
//! (anything implementing [`Check`]) with an inner reader or writer, and feeds
//! the accumulator exactly the bytes that the inner handle confirms as moved.

mod check;
mod checker;
mod counter;
mod hasher;

pub use check::{
    absorbed, chunking_independent, fed_in_order, lemma_chunking_independence, lemma_fed_output,
    output_of, Check,
};
pub use checker::{accumulators, Checker, Counter};
pub use counter::InnerCounter;
