//! The batcher: groups records into batches bounded by count, byte size and
//! a time window, keeping their order.

use vstd::prelude::*;

verus! {

/// The limits of a batch.
#[derive(Clone, Copy, Debug, PartialEq, Eq, Structural)]
pub struct BatcherSettings {
    /// A batch is emitted once it holds this many records (at least one).
    pub max_events: usize,
    /// A batch is emitted once its records' sizes add up to this many bytes.
    pub max_bytes: Option<usize>,
    /// A batch is emitted once this many milliseconds have passed since its
    /// first record arrived.
    pub timeout_ms: u64,
}

impl BatcherSettings {
    /// The default limits: 100 records, no byte limit, one second.
    pub fn default_settings() -> (r: Self)
        ensures
            r.max_events == 100,
            r.max_bytes is None,
            r.timeout_ms == 1000,
    {
        BatcherSettings { max_events: 100, max_bytes: None, timeout_ms: 1000 }
    }

    /// Limits of the caller's choosing; `None` where `max_events` is zero.
    pub fn new(max_events: usize, max_bytes: Option<usize>, timeout_ms: u64) -> (r: Option<Self>)
        ensures
            max_events == 0 ==> r is None,
            max_events > 0 ==> r == Some(
                BatcherSettings { max_events, max_bytes, timeout_ms },
            ),
    {
        if max_events == 0 {
            None
        } else {
            Some(BatcherSettings { max_events, max_bytes, timeout_ms })
        }
    }
}

/// The sum of a list of sizes.
pub open spec fn seq_sum(sizes: Seq<nat>) -> nat
    decreases sizes.len(),
{
    if sizes.len() == 0 {
        0
    } else {
        seq_sum(sizes.drop_last()) + sizes.last()
    }
}

proof fn lemma_sum_push(sizes: Seq<nat>, x: nat)
    ensures
        seq_sum(sizes.push(x)) == seq_sum(sizes) + x,
{
    assert(sizes.push(x).drop_last() =~= sizes);
}

/// Whether a batch of `count` records of `bytes` bytes in all is full.
pub open spec fn is_full(settings: BatcherSettings, count: nat, bytes: nat) -> bool {
    count >= settings.max_events || match settings.max_bytes {
        Some(m) => bytes >= m,
        None => false,
    }
}

/// Whether a batch whose records have these sizes keeps to the limits: no
/// more records than `max_events`, and no more bytes than `max_bytes` unless
/// it is a single record that is larger on its own.
pub open spec fn batch_within(settings: BatcherSettings, sizes: Seq<nat>) -> bool {
    &&& sizes.len() <= settings.max_events
    &&& settings.max_bytes matches Some(m) ==> (seq_sum(sizes) <= m || sizes.len() == 1)
}

/// Accumulates records into the batch under way.
pub struct Batcher<T> {
    settings: BatcherSettings,
    items: Vec<T>,
    sizes: Ghost<Seq<nat>>,
    bytes: usize,
    opened_at_ms: u64,
}

impl<T> Batcher<T> {
    pub closed spec fn settings(&self) -> BatcherSettings {
        self.settings
    }

    /// The records of the batch under way, in arrival order.
    pub closed spec fn pending(&self) -> Seq<T> {
        self.items@
    }

    /// The sizes of the records of the batch under way, in bytes.
    pub closed spec fn pending_sizes(&self) -> Seq<nat> {
        self.sizes@
    }

    /// The size of the batch under way, in bytes.
    pub open spec fn bytes(&self) -> nat {
        seq_sum(self.pending_sizes())
    }

    /// When the first record of the batch under way arrived.
    pub closed spec fn opened_at(&self) -> u64 {
        self.opened_at_ms
    }

    /// Well-formed: the limits allow at least one record, the batch under
    /// way is not full, and the byte count is the sum of the sizes
    /// (saturating).
    pub closed spec fn wf(&self) -> bool {
        &&& self.settings.max_events > 0
        &&& self.settings.max_bytes matches Some(m) ==> m > 0
        &&& self.sizes@.len() == self.items@.len()
        &&& !is_full(self.settings, self.items@.len(), seq_sum(self.sizes@))
        &&& self.bytes as nat == if seq_sum(self.sizes@) > usize::MAX {
            usize::MAX as nat
        } else {
            seq_sum(self.sizes@)
        }
    }

    /// An empty batcher.
    pub fn new(settings: BatcherSettings) -> (r: Self)
        requires
            settings.max_events > 0,
            settings.max_bytes matches Some(m) ==> m > 0,
        ensures
            r.wf(),
            r.settings() == settings,
            r.pending().len() == 0,
            r.pending_sizes().len() == 0,
    {
        Batcher { settings, items: Vec::new(), sizes: Ghost(Seq::empty()), bytes: 0, opened_at_ms: 0 }
    }

    fn take_batch(&mut self) -> (r: Vec<T>)
        ensures
            r@ == old(self).pending(),
            final(self).pending().len() == 0,
            final(self).pending_sizes().len() == 0,
            final(self).bytes == 0,
            final(self).settings() == old(self).settings(),
            final(self).opened_at() == old(self).opened_at(),
    {
        let mut batch: Vec<T> = Vec::new();
        core::mem::swap(&mut batch, &mut self.items);
        self.sizes = Ghost(Seq::empty());
        self.bytes = 0;
        batch
    }

    /// Adds a record of `size` bytes that arrived at `now_ms`. Where the
    /// record would take the batch under way over the byte limit, that batch
    /// is handed out first and the record begins a new one. A batch that is
    /// then full is handed out too. The batches handed out come in order.
    pub fn push(&mut self, item: T, size: usize, now_ms: u64) -> (r: Vec<Vec<T>>)
        requires
            old(self).wf(),
        ensures
            final(self).wf(),
            final(self).settings() == old(self).settings(),
            ({
                let settings = old(self).settings();
                let sizes = old(self).pending_sizes();
                let closing = old(self).pending().len() > 0 && match settings.max_bytes {
                    Some(m) => old(self).bytes() + size > m,
                    None => false,
                };
                if closing {
                    &&& r@.len() >= 1
                    &&& r@[0]@ == old(self).pending()
                    &&& batch_within(settings, sizes)
                    &&& if is_full(settings, 1, size as nat) {
                        &&& r@.len() == 2
                        &&& r@[1]@ == seq![item]
                        &&& final(self).pending().len() == 0
                        &&& final(self).pending_sizes().len() == 0
                    } else {
                        &&& r@.len() == 1
                        &&& final(self).pending() == seq![item]
                        &&& final(self).pending_sizes() == seq![size as nat]
                        &&& final(self).opened_at() == now_ms
                    }
                } else {
                    let all = old(self).pending().push(item);
                    let all_sizes = sizes.push(size as nat);
                    if is_full(settings, all.len(), seq_sum(all_sizes)) {
                        &&& r@.len() == 1
                        &&& r@[0]@ == all
                        &&& batch_within(settings, all_sizes)
                        &&& final(self).pending().len() == 0
                        &&& final(self).pending_sizes().len() == 0
                    } else {
                        &&& r@.len() == 0
                        &&& final(self).pending() == all
                        &&& final(self).pending_sizes() == all_sizes
                        &&& old(self).pending().len() == 0 ==> final(self).opened_at() == now_ms
                        &&& old(self).pending().len() > 0 ==> final(self).opened_at() == old(
                            self,
                        ).opened_at()
                    }
                }
            }),
    {
        let ghost old_sizes = self.sizes@;
        let closing = self.items.len() > 0 && match self.settings.max_bytes {
            Some(m) => size > m - self.bytes,
            None => false,
        };
        let mut out: Vec<Vec<T>> = Vec::new();
        if closing {
            let batch = self.take_batch();
            out.push(batch);
        }
        if self.items.len() == 0 {
            self.opened_at_ms = now_ms;
        }
        let ghost before_sizes = self.sizes@;
        self.items.push(item);
        self.sizes = Ghost(self.sizes@.push(size as nat));
        proof {
            lemma_sum_push(before_sizes, size as nat);
            assert(seq_sum(Seq::<nat>::empty()) == 0);
        }
        self.bytes = if self.bytes > usize::MAX - size {
            usize::MAX
        } else {
            self.bytes + size
        };
        let full = self.items.len() >= self.settings.max_events || match self.settings.max_bytes {
            Some(m) => self.bytes >= m,
            None => false,
        };
        if full {
            let batch = self.take_batch();
            out.push(batch);
        }
        proof {
            if closing {
                assert(seq![size as nat] =~= Seq::<nat>::empty().push(size as nat));
            }
        }
        out
    }

    /// Hands out the batch under way where its time window has passed at
    /// `now_ms`.
    pub fn poll_timeout(&mut self, now_ms: u64) -> (r: Option<Vec<T>>)
        requires
            old(self).wf(),
        ensures
            final(self).wf(),
            final(self).settings() == old(self).settings(),
            ({
                let due = old(self).pending().len() > 0 && now_ms >= old(self).opened_at()
                    && now_ms - old(self).opened_at() >= old(self).settings().timeout_ms;
                if due {
                    &&& r matches Some(b) && b@ == old(self).pending()
                    &&& batch_within(old(self).settings(), old(self).pending_sizes())
                    &&& final(self).pending().len() == 0
                    &&& final(self).pending_sizes().len() == 0
                } else {
                    &&& r is None
                    &&& final(self).pending() == old(self).pending()
                    &&& final(self).pending_sizes() == old(self).pending_sizes()
                    &&& final(self).opened_at() == old(self).opened_at()
                }
            }),
    {
        if self.items.len() > 0 && now_ms >= self.opened_at_ms && now_ms - self.opened_at_ms
            >= self.settings.timeout_ms {
            Some(self.take_batch())
        } else {
            None
        }
    }

    /// Hands out the batch under way at the end of the stream, if it holds
    /// any record.
    pub fn finish(&mut self) -> (r: Option<Vec<T>>)
        requires
            old(self).wf(),
        ensures
            final(self).wf(),
            final(self).settings() == old(self).settings(),
            final(self).pending().len() == 0,
            final(self).pending_sizes().len() == 0,
            old(self).pending().len() > 0 ==> (r matches Some(b) && b@ == old(self).pending()),
            old(self).pending().len() > 0 ==> batch_within(
                old(self).settings(),
                old(self).pending_sizes(),
            ),
            old(self).pending().len() == 0 ==> r is None,
    {
        if self.items.len() > 0 {
            Some(self.take_batch())
        } else {
            None
        }
    }
}

} // verus!
