//! The sampler/producer: turns a stream of input lines into a sample and
//! a sequence of bounded batches.
//!
//! Lines are fed in one at a time. The first `SAMPLE_SIZE` lines are kept
//! as the sample without leaving the main stream; every line also joins
//! the pending batch, and a batch is handed out exactly when it reaches
//! `BATCH_SIZE` lines. A final `flush` hands out whatever partial batch
//! remains, so that the batches together carry every fed line once, in
//! order.

use crate::limits::BATCH_SIZE;
use crate::limits::SAMPLE_SIZE;
use vstd::prelude::*;

verus! {

/// The lines of a sequence of batches, joined back into one stream.
pub open spec fn batch_concat(batches: Seq<Seq<Seq<char>>>) -> Seq<Seq<char>>
    decreases batches.len(),
{
    if batches.len() == 0 {
        Seq::empty()
    } else {
        batch_concat(batches.drop_last()) + batches.last()
    }
}

/// The sample of a line stream: its first `SAMPLE_SIZE` lines, or all of
/// them when there are fewer.
pub open spec fn sample_of(lines: Seq<Seq<char>>) -> Seq<Seq<char>> {
    if lines.len() <= SAMPLE_SIZE {
        lines
    } else {
        lines.take(SAMPLE_SIZE as int)
    }
}

proof fn lemma_batch_concat_push(batches: Seq<Seq<Seq<char>>>, batch: Seq<Seq<char>>)
    ensures
        batch_concat(batches.push(batch)) == batch_concat(batches) + batch,
{
    assert(batches.push(batch).drop_last() =~= batches);
    assert(batches.push(batch).last() == batch);
}

/// The producer's state between two lines: the sample gathered so far,
/// the batch being filled, and (as ghost history) the lines fed and the
/// batches already handed out.
pub struct Producer {
    pub sample: Vec<String>,
    pub pending: Vec<String>,
    pub fed: Ghost<Seq<Seq<char>>>,
    pub emitted: Ghost<Seq<Seq<Seq<char>>>>,
}

impl Producer {
    /// The producer's invariant: batches handed out plus the pending
    /// batch hold exactly the fed lines in order, every handed-out batch
    /// is non-empty and bounded, the pending batch has room left, and the
    /// sample is exactly the sample of the fed lines.
    pub open spec fn wf(self) -> bool {
        &&& self.pending@.len() < BATCH_SIZE
        &&& batch_concat(self.emitted@) + self.pending.deep_view() == self.fed@
        &&& forall|i: int|
            0 <= i < self.emitted@.len() ==> 0 < (#[trigger] self.emitted@[i]).len() <= BATCH_SIZE
        &&& self.sample.deep_view() == sample_of(self.fed@)
    }

    /// A fresh producer: nothing fed, nothing handed out.
    pub fn new() -> (p: Producer)
        ensures
            p.wf(),
            p.fed@ == Seq::<Seq<char>>::empty(),
            p.emitted@ == Seq::<Seq<Seq<char>>>::empty(),
    {
        let p = Producer {
            sample: Vec::new(),
            pending: Vec::new(),
            fed: Ghost(Seq::empty()),
            emitted: Ghost(Seq::empty()),
        };
        proof {
            assert(p.pending.deep_view() =~= Seq::<Seq<char>>::empty());
            assert(p.sample.deep_view() =~= sample_of(p.fed@));
        }
        p
    }

    /// Feeds one line. The line joins the sample while the sample is
    /// still short, and joins the pending batch; exactly when the pending
    /// batch thereby reaches `BATCH_SIZE` lines it is handed out.
    pub fn push_line(&mut self, line: String) -> (full: Option<Vec<String>>)
        requires
            old(self).wf(),
        ensures
            final(self).wf(),
            final(self).fed@ == old(self).fed@.push(line@),
            match full {
                Some(batch) => {
                    &&& batch.deep_view() == old(self).pending.deep_view().push(line@)
                    &&& batch@.len() == BATCH_SIZE
                    &&& final(self).emitted@ == old(self).emitted@.push(batch.deep_view())
                    &&& final(self).pending@.len() == 0
                },
                None => {
                    &&& final(self).emitted@ == old(self).emitted@
                    &&& final(self).pending.deep_view() == old(self).pending.deep_view().push(
                        line@,
                    )
                },
            },
    {
        if self.sample.len() < SAMPLE_SIZE {
            proof {
                assert(self.sample.deep_view().len() == self.sample@.len());
            }
            self.sample.push(line.clone());
            proof {
                assert(self.sample.deep_view() =~= old(self).sample.deep_view().push(line@));
                assert(self.sample.deep_view() =~= sample_of(old(self).fed@.push(line@)));
            }
        } else {
            proof {
                assert(self.sample.deep_view().len() == self.sample@.len());
                assert(self.sample.deep_view() =~= sample_of(old(self).fed@.push(line@)));
            }
        }
        self.pending.push(line);
        self.fed = Ghost(self.fed@.push(line@));
        proof {
            assert(self.pending.deep_view() =~= old(self).pending.deep_view().push(line@));
            assert(batch_concat(self.emitted@) + self.pending.deep_view() =~= self.fed@);
        }
        if self.pending.len() == BATCH_SIZE {
            let mut full: Vec<String> = Vec::new();
            core::mem::swap(&mut full, &mut self.pending);
            self.emitted = Ghost(self.emitted@.push(full.deep_view()));
            proof {
                lemma_batch_concat_push(old(self).emitted@, full.deep_view());
                assert(self.pending.deep_view() =~= Seq::<Seq<char>>::empty());
                assert(batch_concat(self.emitted@) + self.pending.deep_view() =~= self.fed@);
            }
            Some(full)
        } else {
            None
        }
    }

    /// Hands out the final partial batch, if any line is still pending.
    /// Afterwards the handed-out batches carry exactly the fed lines.
    pub fn flush(&mut self) -> (last: Option<Vec<String>>)
        requires
            old(self).wf(),
        ensures
            final(self).wf(),
            final(self).fed@ == old(self).fed@,
            final(self).pending@.len() == 0,
            batch_concat(final(self).emitted@) == final(self).fed@,
            match last {
                Some(batch) => {
                    &&& batch.deep_view() == old(self).pending.deep_view()
                    &&& 0 < batch@.len() < BATCH_SIZE
                    &&& final(self).emitted@ == old(self).emitted@.push(batch.deep_view())
                },
                None => {
                    &&& old(self).pending@.len() == 0
                    &&& final(self).emitted@ == old(self).emitted@
                },
            },
    {
        if self.pending.len() > 0 {
            let mut last: Vec<String> = Vec::new();
            core::mem::swap(&mut last, &mut self.pending);
            self.emitted = Ghost(self.emitted@.push(last.deep_view()));
            proof {
                lemma_batch_concat_push(old(self).emitted@, last.deep_view());
                assert(self.pending.deep_view() =~= Seq::<Seq<char>>::empty());
                assert(batch_concat(self.emitted@) + self.pending.deep_view() =~= self.fed@);
                assert(batch_concat(self.emitted@) =~= self.fed@);
            }
            Some(last)
        } else {
            proof {
                assert(self.pending.deep_view() =~= Seq::<Seq<char>>::empty());
                assert(batch_concat(self.emitted@) =~= self.fed@);
            }
            None
        }
    }

    /// The sample gathered so far: the first lines of the stream.
    pub fn sample_lines(&self) -> (s: &Vec<String>)
        requires
            self.wf(),
        ensures
            s.deep_view() == sample_of(self.fed@),
    {
        &self.sample
    }

    /// Decides whether the sample window is complete: `SAMPLE_SIZE` lines
    /// have been fed, so no later line can change the sample any more.
    pub fn sample_complete(&self) -> (complete: bool)
        requires
            self.wf(),
        ensures
            complete == (self.fed@.len() >= SAMPLE_SIZE),
    {
        proof {
            assert(self.sample.deep_view().len() == self.sample@.len());
        }
        self.sample.len() >= SAMPLE_SIZE
    }
}

} // verus!
