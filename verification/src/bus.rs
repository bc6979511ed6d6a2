//! The fanout bus: a lossy broadcast from ingesting agents to any number
//! of subscribers. Slow subscribers lose the oldest records instead of
//! back-pressuring the producer.

use vstd::prelude::*;
use crate::record::RawRecord;

verus! {

/// What one call to [`Bus::recv`] can yield.
#[derive(Clone, Copy, PartialEq, Eq, Structural, Debug)]
pub enum RecvOutcome {
    /// Nothing published past this subscriber's cursor yet.
    Empty,
    /// The subscriber fell behind by more than the bus capacity; the count
    /// of records it lost for good. Its cursor now points at the oldest
    /// record still held, so the next call yields a record.
    Lagged(u64),
    /// The next record, in publish order.
    Record(RawRecord),
}

/// The broadcast bus. It remembers the last `capacity` published records;
/// a subscriber that stays within that window sees every record in
/// publish order, one that falls outside it loses the oldest ones.
///
/// Publishing never waits for any subscriber: `publish` takes no
/// subscriber at all, and `recv` borrows the bus immutably, so no
/// subscriber can disturb the bus or another subscriber.
pub struct Bus {
    ring: Vec<RawRecord>,
    capacity: usize,
    published: u64,
    hist: Ghost<Seq<RawRecord>>,
}

/// One subscription: a cursor into the bus's publish history. Records
/// before the cursor at subscription time are never seen.
pub struct Subscriber {
    next: u64,
}

impl Subscriber {
    /// The index into the publish history of the next record this
    /// subscriber would receive.
    pub closed spec fn cursor(&self) -> int {
        self.next as int
    }
}

impl Bus {
    /// Every record ever published, in publish order.
    pub closed spec fn hist(&self) -> Seq<RawRecord> {
        self.hist@
    }

    /// How many records were ever published.
    pub open spec fn published(&self) -> int {
        self.hist().len() as int
    }

    /// How many records the bus holds for slow subscribers.
    pub closed spec fn cap(&self) -> int {
        self.capacity as int
    }

    /// The bus invariant: the ring holds exactly the most recent
    /// `capacity` published records (all of them while fewer).
    pub closed spec fn wf(&self) -> bool {
        &&& self.capacity >= 1
        &&& self.hist@.len() == self.published
        &&& self.ring@.len() == if self.published <= self.capacity {
            self.published as int
        } else {
            self.capacity as int
        }
        &&& self.ring@ == self.hist@.subrange(
            self.published - self.ring@.len(),
            self.published as int,
        )
    }

    /// A subscriber made for this bus whose cursor was never moved past
    /// the history.
    pub open spec fn valid_sub(&self, sub: Subscriber) -> bool {
        0 <= sub.cursor() <= self.published()
    }

    /// A fresh bus that has published nothing.
    pub fn new(capacity: usize) -> (b: Bus)
        requires
            capacity >= 1,
        ensures
            b.wf(),
            b.hist() == Seq::<RawRecord>::empty(),
            b.cap() == capacity,
    {
        let b = Bus { ring: Vec::new(), capacity, published: 0, hist: Ghost(Seq::empty()) };
        proof {
            assert(b.ring@ =~= b.hist@.subrange(0, 0));
        }
        b
    }

    /// Publishes one record: it is appended to the history, and the
    /// oldest held record is discarded once the bus is over capacity.
    /// No subscriber is consulted and none can block this.
    pub fn publish(&mut self, r: RawRecord)
        requires
            old(self).wf(),
            old(self).published() < u64::MAX,
        ensures
            final(self).wf(),
            final(self).cap() == old(self).cap(),
            final(self).hist() == old(self).hist().push(r),
    {
        self.ring.push(r);
        if self.ring.len() > self.capacity {
            self.ring.remove(0);
        }
        self.published = self.published + 1;
        proof {
            self.hist@ = self.hist@.push(r);
        }
        proof {
            assert(self.ring@ =~= self.hist@.subrange(
                self.published - self.ring@.len(),
                self.published as int,
            ));
        }
    }

    /// Publishes every record of an ingested batch, in batch order. This
    /// is the whole ingest step: one inbound batch becomes that many bus
    /// records.
    pub fn publish_batch(&mut self, batch: &Vec<RawRecord>)
        requires
            old(self).wf(),
            old(self).published() + batch@.len() <= u64::MAX,
        ensures
            final(self).wf(),
            final(self).cap() == old(self).cap(),
            final(self).hist() == old(self).hist() + batch@,
    {
        let mut i: usize = 0;
        proof {
            assert(self.hist() =~= old(self).hist() + batch@.take(0));
        }
        while i < batch.len()
            invariant
                i <= batch@.len(),
                self.wf(),
                self.cap() == old(self).cap(),
                self.hist() == old(self).hist() + batch@.take(i as int),
                old(self).published() + batch@.len() <= u64::MAX,
            decreases batch@.len() - i,
        {
            self.publish(batch[i]);
            i = i + 1;
            proof {
                assert(old(self).hist() + batch@.take(i as int) =~= (old(self).hist()
                    + batch@.take(i - 1)).push(batch@[i - 1]));
            }
        }
        proof {
            assert(old(self).hist() + batch@.take(batch@.len() as int) =~= old(self).hist()
                + batch@);
        }
    }

    /// Opens a subscription. A subscriber sees only records published
    /// after it joined.
    pub fn subscribe(&self) -> (sub: Subscriber)
        requires
            self.wf(),
        ensures
            self.valid_sub(sub),
            sub.cursor() == self.published(),
    {
        Subscriber { next: self.published }
    }

    /// One delivery step for `sub`, never touching the bus or any other
    /// subscriber:
    /// - nothing new: `Empty`, the cursor stays;
    /// - within the capacity window: the record at the cursor, in publish
    ///   order, and the cursor advances by one;
    /// - fallen out of the window: `Lagged` with the number of records
    ///   lost for good, and the cursor jumps to the oldest held record.
    pub fn recv(&self, sub: &mut Subscriber) -> (out: RecvOutcome)
        requires
            self.wf(),
            self.valid_sub(*old(sub)),
        ensures
            self.valid_sub(*final(sub)),
            old(sub).cursor() == self.published() ==> out == RecvOutcome::Empty
                && final(sub).cursor() == old(sub).cursor(),
            old(sub).cursor() < self.published() && self.published() - old(sub).cursor()
                <= self.cap() ==> out == RecvOutcome::Record(self.hist()[old(sub).cursor()])
                && final(sub).cursor() == old(sub).cursor() + 1,
            self.published() - old(sub).cursor() > self.cap() ==> (out matches RecvOutcome::Lagged(
                n,
            ) && n == self.published() - self.cap() - old(sub).cursor()) && final(sub).cursor()
                == self.published() - self.cap(),
    {
        if sub.next == self.published {
            RecvOutcome::Empty
        } else {
            let lag = self.published - sub.next;
            if lag > self.capacity as u64 {
                let skipped = lag - self.capacity as u64;
                sub.next = self.published - self.capacity as u64;
                RecvOutcome::Lagged(skipped)
            } else {
                let idx = self.ring.len() - lag as usize;
                let r = self.ring[idx];
                proof {
                    assert(self.ring@[idx as int] == self.hist@[old(sub).cursor()]);
                }
                sub.next = sub.next + 1;
                RecvOutcome::Record(r)
            }
        }
    }

    /// Where a subscriber's reading resumes: at its cursor while it is
    /// within the capacity window, else at the oldest record still held.
    pub open spec fn resume_point(&self, cursor: int) -> int {
        if self.published() - cursor > self.cap() {
            self.published() - self.cap()
        } else {
            cursor
        }
    }

    /// Drains everything pending for `sub`: the returned records are
    /// exactly the published history from the subscriber's resume point
    /// on, in publish order. A subscriber that kept up (its lag never
    /// exceeded the capacity) therefore receives every record published
    /// since it joined, in order; one that fell behind loses exactly the
    /// records before the resume point and nothing after.
    pub fn drain(&self, sub: &mut Subscriber) -> (out: Vec<RawRecord>)
        requires
            self.wf(),
            self.valid_sub(*old(sub)),
        ensures
            self.valid_sub(*final(sub)),
            final(sub).cursor() == self.published(),
            out@ == self.hist().subrange(self.resume_point(old(sub).cursor()), self.published()),
    {
        let ghost start = self.resume_point(old(sub).cursor());
        let mut out: Vec<RawRecord> = Vec::new();
        let mut done = false;
        while !done
            invariant
                self.wf(),
                self.valid_sub(*sub),
                start == self.resume_point(old(sub).cursor()),
                done ==> sub.cursor() == self.published(),
                (sub.cursor() < start && out@ =~= Seq::<RawRecord>::empty() && sub.cursor()
                    == old(sub).cursor()) || (sub.cursor() >= start && out@ == self.hist().subrange(
                    start,
                    sub.cursor(),
                )),
            decreases self.published() - sub.cursor() + if done {
                0int
            } else {
                1int
            },
        {
            match self.recv(sub) {
                RecvOutcome::Empty => {
                    done = true;
                },
                RecvOutcome::Lagged(_) => {
                    proof {
                        assert(out@ =~= self.hist().subrange(start, sub.cursor()));
                    }
                },
                RecvOutcome::Record(r) => {
                    out.push(r);
                    proof {
                        assert(out@ =~= self.hist().subrange(start, sub.cursor()));
                    }
                },
            }
        }
        out
    }
}

} // verus!
