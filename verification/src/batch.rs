//! Micro-batching: a bounded buffer of captured records with dual flush
//! triggers, by record count and by elapsed time.

use vstd::prelude::*;
use crate::record::RawRecord;

verus! {

/// Accumulates records and hands off a non-empty batch whenever the
/// buffer reaches `capacity` records or `interval_ms` has elapsed since
/// the last flush. Time enters only as an argument, in milliseconds.
pub struct Batcher {
    buffer: Vec<RawRecord>,
    batch_size: usize,
    batch_interval_ms: u64,
    last_flush_ms: u64,
}

impl Batcher {
    /// The records buffered and not yet flushed, in arrival order.
    pub closed spec fn pending(&self) -> Seq<RawRecord> {
        self.buffer@
    }

    /// The flush threshold in records.
    pub closed spec fn capacity(&self) -> int {
        self.batch_size as int
    }

    /// The flush threshold in elapsed milliseconds.
    pub closed spec fn interval_ms(&self) -> int {
        self.batch_interval_ms as int
    }

    /// The time of the last flush (or of construction), in milliseconds.
    pub closed spec fn last_flush_ms(&self) -> int {
        self.last_flush_ms as int
    }

    /// The batcher's invariant: the buffer stays strictly below the flush
    /// threshold between calls.
    pub closed spec fn wf(&self) -> bool {
        &&& self.batch_size >= 1
        &&& self.buffer@.len() < self.batch_size
    }

    /// The buffer never holds `capacity` or more records: memory stays
    /// bounded no matter how slow the downstream consumer is.
    pub proof fn lemma_buffer_bounded(&self)
        requires
            self.wf(),
        ensures
            self.pending().len() < self.capacity(),
    {
    }

    /// A flush is due within one interval of the first buffered packet:
    /// whenever the buffer is non-empty and the last flush did not come
    /// after the first buffered packet, any `tick` at or past
    /// `t_first + interval` flushes. The capture loop ticks at least
    /// every poll timeout, so an idle link still flushes on time.
    pub proof fn lemma_flush_deadline(&self, t_first: u64, now_ms: u64)
        requires
            self.wf(),
            self.pending().len() > 0,
            self.last_flush_ms() <= t_first,
            now_ms >= t_first + self.interval_ms(),
        ensures
            self.due(now_ms),
    {
    }

    /// A time-triggered flush is owed: records are buffered and the
    /// interval has elapsed since the last flush.
    pub open spec fn due(&self, now_ms: u64) -> bool {
        self.pending().len() > 0 && now_ms >= self.last_flush_ms() + self.interval_ms()
    }

    /// A fresh, empty batcher. `now_ms` starts the flush timer.
    pub fn new(batch_size: usize, batch_interval_ms: u64, now_ms: u64) -> (b: Batcher)
        requires
            batch_size >= 1,
        ensures
            b.wf(),
            b.pending() == Seq::<RawRecord>::empty(),
            b.capacity() == batch_size,
            b.interval_ms() == batch_interval_ms,
            b.last_flush_ms() == now_ms,
    {
        Batcher { buffer: Vec::new(), batch_size, batch_interval_ms, last_flush_ms: now_ms }
    }

    /// Buffers one record; hands the whole buffer back as a batch when it
    /// reaches the flush threshold. No record is dropped or invented: the
    /// batch, or the new buffer, is exactly the old buffer plus `rec`.
    pub fn push(&mut self, rec: RawRecord, now_ms: u64) -> (flushed: Option<Vec<RawRecord>>)
        requires
            old(self).wf(),
        ensures
            final(self).wf(),
            final(self).capacity() == old(self).capacity(),
            final(self).interval_ms() == old(self).interval_ms(),
            flushed matches Some(batch) ==> {
                &&& batch@ == old(self).pending().push(rec)
                &&& batch@.len() == old(self).capacity()
                &&& final(self).pending() == Seq::<RawRecord>::empty()
                &&& final(self).last_flush_ms() == now_ms
            },
            flushed is None ==> {
                &&& final(self).pending() == old(self).pending().push(rec)
                &&& old(self).pending().len() + 1 < old(self).capacity()
                &&& final(self).last_flush_ms() == old(self).last_flush_ms()
            },
            (flushed is Some) == (old(self).pending().len() + 1 == old(self).capacity()),
    {
        self.buffer.push(rec);
        if self.buffer.len() >= self.batch_size {
            let batch = self.buffer.split_off(0);
            self.last_flush_ms = now_ms;
            proof {
                assert(batch@ =~= old(self).pending().push(rec));
                assert(self.buffer@ =~= Seq::<RawRecord>::empty());
            }
            Some(batch)
        } else {
            None
        }
    }

    /// The timer check made at the top of every capture iteration: flushes
    /// exactly when a flush is due. An empty buffer never produces a
    /// batch, and a due buffer is handed off whole.
    pub fn tick(&mut self, now_ms: u64) -> (flushed: Option<Vec<RawRecord>>)
        requires
            old(self).wf(),
        ensures
            final(self).wf(),
            final(self).capacity() == old(self).capacity(),
            final(self).interval_ms() == old(self).interval_ms(),
            old(self).due(now_ms) ==> {
                &&& flushed matches Some(batch) && batch@ == old(self).pending()
                &&& final(self).pending() == Seq::<RawRecord>::empty()
                &&& final(self).last_flush_ms() == now_ms
            },
            !old(self).due(now_ms) ==> flushed is None && *final(self) == *old(self),
            old(self).pending().len() == 0 ==> flushed is None,
    {
        if self.buffer.len() > 0 && now_ms >= self.last_flush_ms && now_ms - self.last_flush_ms
            >= self.batch_interval_ms {
            let batch = self.buffer.split_off(0);
            self.last_flush_ms = now_ms;
            proof {
                assert(batch@ =~= old(self).pending());
                assert(self.buffer@ =~= Seq::<RawRecord>::empty());
            }
            Some(batch)
        } else {
            None
        }
    }
}

} // verus!
