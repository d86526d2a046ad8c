//! The whole bridge, end to end: lines in, sample and delivered batches
//! out.
//!
//! These functions compose the producer and the channel the way the
//! running system does — the producer batches the lines and sends them,
//! the consumer drains the channel until end-of-stream — and their
//! contracts state the bridge's promises: every line crosses the channel
//! exactly once, in order, and the sample is the stream's own prefix.

use crate::channel::Channel;
use crate::channel::lemma_drained_channel_delivered_everything;
use crate::limits::BATCH_SIZE;
use crate::producer::Producer;
use crate::producer::batch_concat;
use crate::producer::sample_of;
use vstd::prelude::*;

verus! {

/// Once the producer has flushed everything it was fed into batches and
/// the channel has accepted those batches and drained, the lines handed
/// out by the channel are exactly the lines the producer was fed.
pub proof fn lemma_bridge_delivers_all_lines(p: Producer, c: Channel)
    requires
        p.wf(),
        c.wf(),
        p.pending@.len() == 0,
        c.accepted@ == p.emitted@,
        c.queue@.len() == 0,
    ensures
        batch_concat(c.delivered@) == p.fed@,
{
    lemma_drained_channel_delivered_everything(c);
    assert(p.pending.deep_view() =~= Seq::<Seq<char>>::empty());
    assert(batch_concat(p.emitted@) =~= batch_concat(p.emitted@) + p.pending.deep_view());
}

/// Feeds every line to a fresh producer and gathers what it hands out:
/// the sample and the batches, which carry exactly the given lines, in
/// order, in non-empty batches of at most `BATCH_SIZE` lines each; every
/// batch but the last holds exactly `BATCH_SIZE` lines, which pins the
/// batch boundaries uniquely.
pub fn produce_all(lines: &Vec<String>) -> (r: (Vec<String>, Vec<Vec<String>>))
    ensures
        ({
            let (sample, batches) = r;
            &&& batch_concat(batches.deep_view()) == lines.deep_view()
            &&& sample.deep_view() == sample_of(lines.deep_view())
            &&& forall|i: int|
                0 <= i < batches@.len() ==> 0 < (#[trigger] batches.deep_view()[i]).len()
                    <= BATCH_SIZE
            &&& forall|i: int|
                0 <= i < batches@.len() - 1 ==> (#[trigger] batches.deep_view()[i]).len()
                    == BATCH_SIZE
        }),
{
    let mut p = Producer::new();
    let mut batches: Vec<Vec<String>> = Vec::new();
    let n: usize = lines.len();
    let mut i: usize = 0;
    proof {
        assert(p.fed@ =~= lines.deep_view().take(0));
        assert(batches.deep_view() =~= p.emitted@);
    }
    while i < n
        invariant
            i <= n,
            n == lines@.len(),
            p.wf(),
            p.fed@ == lines.deep_view().take(i as int),
            batches.deep_view() == p.emitted@,
            forall|j: int|
                0 <= j < batches@.len() ==> (#[trigger] batches.deep_view()[j]).len()
                    == BATCH_SIZE,
        decreases n - i,
    {
        let line = lines[i].clone();
        let full = p.push_line(line);
        match full {
            Some(batch) => {
                let ghost out_before = batches.deep_view();
                let ghost bdv = batch.deep_view();
                batches.push(batch);
                proof {
                    assert(bdv.len() == BATCH_SIZE);
                    assert(batches.deep_view() =~= out_before.push(bdv));
                    assert(batches.deep_view() =~= p.emitted@);
                }
            },
            None => {},
        }
        i = i + 1;
        proof {
            assert(lines.deep_view().take(i as int) =~= lines.deep_view().take(i - 1 as int).push(
                lines.deep_view()[i - 1],
            ));
        }
    }
    proof {
        assert(lines.deep_view().take(n as int) =~= lines.deep_view());
    }
    let last = p.flush();
    match last {
        Some(batch) => {
            let ghost out_before = batches.deep_view();
            let ghost bdv = batch.deep_view();
            batches.push(batch);
            proof {
                assert(batches.deep_view() =~= out_before.push(bdv));
                assert(batches.deep_view() =~= p.emitted@);
                assert(forall|j: int|
                    0 <= j < batches@.len() - 1 ==> (#[trigger] batches.deep_view()[j]).len()
                        == BATCH_SIZE);
            }
        },
        None => {},
    }
    let Producer { sample, pending: _, fed: _, emitted: _ } = p;
    (sample, batches)
}

/// Runs the whole bridge on the given lines: batches them, sends every
/// batch through a bounded channel — draining one batch whenever the
/// channel is full, exactly as the back-pressured consumer does — closes
/// the channel, and receives until end-of-stream. The batches received
/// carry exactly the given lines in order, every batch but the last is
/// exactly full, and the sample is the prefix of the delivered stream.
pub fn stream_through_channel(lines: &Vec<String>) -> (r: (Vec<String>, Vec<Vec<String>>))
    ensures
        ({
            let (sample, delivered) = r;
            &&& batch_concat(delivered.deep_view()) == lines.deep_view()
            &&& sample.deep_view() == sample_of(lines.deep_view())
            &&& sample.deep_view() == batch_concat(delivered.deep_view()).take(
                sample.deep_view().len() as int,
            )
            &&& forall|i: int|
                0 <= i < delivered@.len() ==> 0 < (#[trigger] delivered.deep_view()[i]).len()
                    <= BATCH_SIZE
            &&& forall|i: int|
                0 <= i < delivered@.len() - 1 ==> (#[trigger] delivered.deep_view()[i]).len()
                    == BATCH_SIZE
        }),
{
    let (sample, mut batches) = produce_all(lines);
    let ghost all = batches.deep_view();
    let mut chan = Channel::new();
    let mut out: Vec<Vec<String>> = Vec::new();
    proof {
        assert(out.deep_view() =~= chan.delivered@);
        assert(all.skip(0) =~= batches.deep_view());
        assert(chan.accepted@ =~= all.take(0));
    }
    let ghost mut k: int = 0;
    while batches.len() > 0
        invariant
            chan.wf(),
            !chan.closed,
            !chan.receiver_dropped,
            0 <= k <= all.len(),
            batches.deep_view() == all.skip(k),
            chan.accepted@ == all.take(k),
            out.deep_view() == chan.delivered@,
            forall|i: int| 0 <= i < all.len() ==> 0 < (#[trigger] all[i]).len() <= BATCH_SIZE,
            forall|i: int| 0 <= i < all.len() - 1 ==> (#[trigger] all[i]).len() == BATCH_SIZE,
        decreases batches@.len(),
    {
        if chan.is_full() {
            let got = chan.recv();
            match got {
                Some(batch) => {
                    let ghost out_before = out.deep_view();
                    out.push(batch);
                    proof {
                        assert(out.deep_view() =~= out_before.push(out.deep_view().last()));
                    }
                },
                None => {},
            }
        }
        proof {
            assert(batches.deep_view().len() == batches@.len());
            assert(k < all.len());
        }
        let ghost rem_before = batches.deep_view();
        let batch = batches.remove(0);
        proof {
            assert(batch.deep_view() == rem_before[0]);
            assert(rem_before[0] == all[k]);
            assert(batches.deep_view() =~= rem_before.drop_first());
            assert(rem_before.drop_first() =~= all.skip(k + 1));
        }
        let sent = chan.send(batch);
        proof {
            k = k + 1;
            assert(chan.accepted@ =~= all.take(k));
        }
        match sent {
            Ok(_) => {},
            Err(_) => {},
        }
    }
    proof {
        assert(all.take(k) =~= all);
    }
    chan.close();
    while chan.in_flight() > 0
        invariant
            chan.wf(),
            chan.closed,
            !chan.receiver_dropped,
            chan.accepted@ == all,
            out.deep_view() == chan.delivered@,
            forall|i: int| 0 <= i < all.len() ==> 0 < (#[trigger] all[i]).len() <= BATCH_SIZE,
            forall|i: int| 0 <= i < all.len() - 1 ==> (#[trigger] all[i]).len() == BATCH_SIZE,
        decreases chan.queue@.len(),
    {
        let got = chan.recv();
        match got {
            Some(batch) => {
                let ghost out_before = out.deep_view();
                out.push(batch);
                proof {
                    assert(out.deep_view() =~= out_before.push(out.deep_view().last()));
                }
            },
            None => {},
        }
    }
    proof {
        lemma_drained_channel_delivered_everything(chan);
        assert(batch_concat(out.deep_view()) == lines.deep_view());
        let sdv = sample.deep_view();
        let ldv = lines.deep_view();
        assert(sdv == sample_of(ldv));
        assert(sample_of(ldv) =~= ldv.take(sdv.len() as int));
        assert(forall|i: int|
            0 <= i < out@.len() ==> 0 < (#[trigger] out.deep_view()[i]).len() <= BATCH_SIZE);
    }
    (sample, out)
}

} // verus!
