//! The aggregation stage: a per-category cache of pending events, flushed as
//! a whole either the instant a category reaches the configured threshold or
//! on a periodic timer tick.
//!
//! The cache is volatile by design: it is created empty, never persisted, and
//! whatever is pending at shutdown is lost. The stage owns the cache
//! exclusively; one trigger (an ingest or a timer tick) is processed fully
//! before the next, so take-and-clear is the single serialization point and
//! no events can be delivered twice.

use vstd::prelude::*;

use crate::messages::BatchMessage;
use crate::model::{Transaction, TransactionType};

verus! {

/// Per-category flush threshold used when none is configured.
pub const DEFAULT_THRESHOLD: usize = 100;

/// Period of the timer-driven flush, in seconds. The timer itself runs in the
/// surrounding process; this stage only reacts to its ticks.
pub const TIMER_INTERVAL_SECS: u64 = 60;

/// Snapshot of one emitted batch: the category and the events that were
/// pending for it at flush time, in arrival order.
#[verifier::ext_equal]
pub struct BatchModel {
    pub data_type: TransactionType,
    pub batch_data: Seq<Transaction>,
}

/// Snapshot of the aggregation cache: what is pending for each category, and
/// the flush threshold.
#[verifier::ext_equal]
pub struct CacheModel {
    pub pending: Map<TransactionType, Seq<Transaction>>,
    pub threshold: int,
}

impl CacheModel {
    /// The cache invariant: the threshold is positive, every category is
    /// present, no category holds threshold-many events once an operation has
    /// completed, and each category holds only its own events.
    pub open spec fn wf(self) -> bool {
        &&& self.threshold >= 1
        &&& forall|t: TransactionType| self.pending.dom().contains(t)
        &&& forall|t: TransactionType| (#[trigger] self.pending[t]).len() < self.threshold
        &&& forall|t: TransactionType, i: int|
            0 <= i < self.pending[t].len() ==> (#[trigger] self.pending[t][i]).transaction_type
                == t
    }
}

/// The empty cache with the given threshold.
pub open spec fn empty_cache(threshold: int) -> CacheModel {
    CacheModel { pending: Map::total(|t: TransactionType| Seq::<Transaction>::empty()), threshold }
}

/// One ingest step: the event is appended to its category; if the category
/// then holds at least threshold-many events, the whole sequence is taken as
/// a batch and the category becomes empty.
pub open spec fn spec_ingest(c: CacheModel, e: Transaction) -> (CacheModel, Option<BatchModel>) {
    let t = e.transaction_type;
    let grown = c.pending[t].push(e);
    if grown.len() >= c.threshold {
        (
            CacheModel { pending: c.pending.insert(t, Seq::empty()), ..c },
            Some(BatchModel { data_type: t, batch_data: grown }),
        )
    } else {
        (CacheModel { pending: c.pending.insert(t, grown), ..c }, None)
    }
}

/// The batch that a flush of category `t` would carry.
pub open spec fn batch_of(c: CacheModel, t: TransactionType) -> BatchModel {
    BatchModel { data_type: t, batch_data: c.pending[t] }
}

/// A forced flush of one category: its pending events leave as a batch
/// (possibly empty) and the category becomes empty.
pub open spec fn spec_flush_category(c: CacheModel, t: TransactionType) -> (
    CacheModel,
    BatchModel,
) {
    (CacheModel { pending: c.pending.insert(t, Seq::<Transaction>::empty()), ..c }, batch_of(c, t))
}

/// The batch a timer tick emits for one category: one batch if the category
/// is non-empty, none otherwise.
pub open spec fn maybe_batch(c: CacheModel, t: TransactionType) -> Seq<BatchModel> {
    if c.pending[t].len() > 0 {
        seq![batch_of(c, t)]
    } else {
        Seq::<BatchModel>::empty()
    }
}

/// Everything a timer tick emits: one batch per non-empty category, in the
/// fixed category order.
pub open spec fn spec_timer_batches(c: CacheModel) -> Seq<BatchModel> {
    maybe_batch(c, TransactionType::Bet) + maybe_batch(c, TransactionType::Trade) + maybe_batch(
        c,
        TransactionType::Deposit,
    ) + maybe_batch(c, TransactionType::Withdrawal)
}

/// The cache after a timer tick: empty everywhere, threshold kept.
pub open spec fn spec_timer_state(c: CacheModel) -> CacheModel {
    empty_cache(c.threshold)
}

/// The batch view of an optional batch message.
pub open spec fn opt_batch_view(r: Option<BatchMessage>) -> Option<BatchModel> {
    match r {
        Some(b) => Some(b@),
        None => None,
    }
}

/// The aggregation cache: an ordered sequence of pending events per category.
/// The category set is closed, so one field per category keeps the mapping
/// total by construction.
pub struct Aggregator {
    bet: Vec<Transaction>,
    trade: Vec<Transaction>,
    deposit: Vec<Transaction>,
    withdrawal: Vec<Transaction>,
    threshold: usize,
}

impl View for Aggregator {
    type V = CacheModel;

    closed spec fn view(&self) -> CacheModel {
        CacheModel {
            pending: Map::total(
                |t: TransactionType|
                    match t {
                        TransactionType::Bet => self.bet@,
                        TransactionType::Trade => self.trade@,
                        TransactionType::Deposit => self.deposit@,
                        TransactionType::Withdrawal => self.withdrawal@,
                    },
            ),
            threshold: self.threshold as int,
        }
    }
}

/// Takes a category's whole pending sequence, leaving it empty.
fn bucket_take(v: &mut Vec<Transaction>) -> (r: Vec<Transaction>)
    ensures
        r@ == old(v)@,
        final(v)@ == Seq::<Transaction>::empty(),
{
    let mut taken: Vec<Transaction> = Vec::new();
    core::mem::swap(v, &mut taken);
    taken
}

/// Appends `event` to one category's pending sequence; if the sequence then
/// holds at least `threshold` events it is taken whole and returned.
fn bucket_ingest(v: &mut Vec<Transaction>, threshold: usize, event: Transaction) -> (r: Option<
    Vec<Transaction>,
>)
    requires
        old(v)@.len() < threshold,
    ensures
        ({
            let grown = old(v)@.push(event);
            if grown.len() >= threshold {
                &&& final(v)@ == Seq::<Transaction>::empty()
                &&& r matches Some(taken) && taken@ == grown
            } else {
                &&& final(v)@ == grown
                &&& r is None
            }
        }),
{
    v.push(event);
    if v.len() >= threshold {
        Some(bucket_take(v))
    } else {
        None
    }
}

impl Aggregator {
    /// An empty cache with the given per-category flush threshold.
    pub fn with_threshold(threshold: usize) -> (r: Aggregator)
        requires
            threshold >= 1,
        ensures
            r@ == empty_cache(threshold as int),
            r@.wf(),
    {
        let r = Aggregator {
            bet: Vec::new(),
            trade: Vec::new(),
            deposit: Vec::new(),
            withdrawal: Vec::new(),
            threshold,
        };
        proof {
            assert(r@.pending =~= empty_cache(threshold as int).pending);
            assert(r@ =~= empty_cache(threshold as int));
        }
        r
    }

    /// An empty cache with the default threshold.
    pub fn new() -> (r: Aggregator)
        ensures
            r@ == empty_cache(DEFAULT_THRESHOLD as int),
            r@.wf(),
    {
        Aggregator::with_threshold(DEFAULT_THRESHOLD)
    }

    /// The configured per-category flush threshold.
    pub fn threshold(&self) -> (r: usize)
        ensures
            r as int == self@.threshold,
    {
        self.threshold
    }

    /// Accepts one event: appends it to its category and, if the category has
    /// reached the threshold, returns the whole taken sequence as a batch.
    /// The caller must hand a returned batch to the write stage before the
    /// next trigger is processed.
    pub fn ingest(&mut self, event: Transaction) -> (r: Option<BatchMessage>)
        requires
            old(self)@.wf(),
        ensures
            final(self)@.wf(),
            final(self)@ == spec_ingest(old(self)@, event).0,
            opt_batch_view(r) == spec_ingest(old(self)@, event).1,
    {
        let t = event.transaction_type;
        proof {
            assert(old(self)@.pending[TransactionType::Bet].len() < old(self)@.threshold);
            assert(old(self)@.pending[TransactionType::Trade].len() < old(self)@.threshold);
            assert(old(self)@.pending[TransactionType::Deposit].len() < old(self)@.threshold);
            assert(old(self)@.pending[TransactionType::Withdrawal].len() < old(self)@.threshold);
        }
        let taken = match t {
            TransactionType::Bet => bucket_ingest(&mut self.bet, self.threshold, event),
            TransactionType::Trade => bucket_ingest(&mut self.trade, self.threshold, event),
            TransactionType::Deposit => bucket_ingest(&mut self.deposit, self.threshold, event),
            TransactionType::Withdrawal => bucket_ingest(
                &mut self.withdrawal,
                self.threshold,
                event,
            ),
        };
        let r = match taken {
            Some(batch_data) => Some(BatchMessage { data_type: t, batch_data }),
            None => None,
        };
        proof {
            assert(self@.pending =~= spec_ingest(old(self)@, event).0.pending);
            assert(self@ =~= spec_ingest(old(self)@, event).0);
            assert(self@.wf());
        }
        r
    }

    /// A forced flush of one category: its whole pending sequence leaves as a
    /// batch (possibly empty) and the category becomes empty. Already-flushed
    /// events are never delivered again, because taking the sequence is the
    /// only way to read it.
    pub fn flush_category(&mut self, t: TransactionType) -> (r: BatchMessage)
        requires
            old(self)@.wf(),
        ensures
            final(self)@.wf(),
            final(self)@ == spec_flush_category(old(self)@, t).0,
            r@ == spec_flush_category(old(self)@, t).1,
    {
        let batch_data = match t {
            TransactionType::Bet => bucket_take(&mut self.bet),
            TransactionType::Trade => bucket_take(&mut self.trade),
            TransactionType::Deposit => bucket_take(&mut self.deposit),
            TransactionType::Withdrawal => bucket_take(&mut self.withdrawal),
        };
        let r = BatchMessage { data_type: t, batch_data };
        proof {
            assert(self@.pending =~= spec_flush_category(old(self)@, t).0.pending);
            assert(self@ =~= spec_flush_category(old(self)@, t).0);
            assert(self@.wf());
            assert(r@ =~= spec_flush_category(old(self)@, t).1);
        }
        r
    }

    /// A timer tick: every non-empty category is taken whole as one batch, in
    /// the fixed category order; empty categories produce no batch. The cache
    /// is empty afterwards.
    pub fn on_timer_tick(&mut self) -> (r: Vec<BatchMessage>)
        requires
            old(self)@.wf(),
        ensures
            final(self)@.wf(),
            final(self)@ == spec_timer_state(old(self)@),
            r@.map_values(|b: BatchMessage| b@) == spec_timer_batches(old(self)@),
    {
        let mut out: Vec<BatchMessage> = Vec::new();
        if self.bet.len() > 0 {
            let batch_data = bucket_take(&mut self.bet);
            out.push(BatchMessage { data_type: TransactionType::Bet, batch_data });
        }
        proof {
            assert(out@.map_values(|b: BatchMessage| b@) =~= maybe_batch(
                old(self)@,
                TransactionType::Bet,
            ));
        }
        if self.trade.len() > 0 {
            let batch_data = bucket_take(&mut self.trade);
            out.push(BatchMessage { data_type: TransactionType::Trade, batch_data });
        }
        proof {
            assert(out@.map_values(|b: BatchMessage| b@) =~= maybe_batch(
                old(self)@,
                TransactionType::Bet,
            ) + maybe_batch(old(self)@, TransactionType::Trade));
        }
        if self.deposit.len() > 0 {
            let batch_data = bucket_take(&mut self.deposit);
            out.push(BatchMessage { data_type: TransactionType::Deposit, batch_data });
        }
        proof {
            assert(out@.map_values(|b: BatchMessage| b@) =~= maybe_batch(
                old(self)@,
                TransactionType::Bet,
            ) + maybe_batch(old(self)@, TransactionType::Trade) + maybe_batch(
                old(self)@,
                TransactionType::Deposit,
            ));
        }
        if self.withdrawal.len() > 0 {
            let batch_data = bucket_take(&mut self.withdrawal);
            out.push(BatchMessage { data_type: TransactionType::Withdrawal, batch_data });
        }
        proof {
            assert(out@.map_values(|b: BatchMessage| b@) =~= spec_timer_batches(old(self)@));
            assert(self.bet@ =~= Seq::<Transaction>::empty());
            assert(self.trade@ =~= Seq::<Transaction>::empty());
            assert(self.deposit@ =~= Seq::<Transaction>::empty());
            assert(self.withdrawal@ =~= Seq::<Transaction>::empty());
            assert(self@.pending =~= spec_timer_state(old(self)@).pending);
            assert(self@ =~= spec_timer_state(old(self)@));
            assert(self@.wf());
        }
        out
    }
}

} // verus!
