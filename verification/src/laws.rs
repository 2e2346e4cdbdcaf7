//! Laws of the aggregation stage, stated and proved over the spec-level
//! transitions of [`crate::state`]: what a run of ingests emits, how
//! categories stay independent, and how order is preserved.

use vstd::prelude::*;

use crate::model::{Transaction, TransactionType};
use crate::state::{
    batch_of, spec_flush_category, spec_ingest, spec_timer_batches, spec_timer_state, BatchModel,
    CacheModel,
};

verus! {

/// The cache and the emitted batches, in emission order, after ingesting
/// `events` one at a time starting from `c`, with no timer tick in between.
pub open spec fn spec_ingest_all(c: CacheModel, events: Seq<Transaction>) -> (
    CacheModel,
    Seq<BatchModel>,
)
    decreases events.len(),
{
    if events.len() == 0 {
        (c, Seq::<BatchModel>::empty())
    } else {
        let first = spec_ingest(c, events[0]);
        let rest = spec_ingest_all(first.0, events.drop_first());
        let emitted = match first.1 {
            Some(b) => seq![b] + rest.1,
            None => rest.1,
        };
        (rest.0, emitted)
    }
}

/// The events of category `t` within `events`, in order.
pub open spec fn of_category(events: Seq<Transaction>, t: TransactionType) -> Seq<Transaction>
    decreases events.len(),
{
    if events.len() == 0 {
        Seq::<Transaction>::empty()
    } else {
        let head = if events[0].transaction_type == t {
            seq![events[0]]
        } else {
            Seq::<Transaction>::empty()
        };
        head + of_category(events.drop_first(), t)
    }
}

/// Everything the batches of category `t` deliver, concatenated in emission
/// order.
pub open spec fn delivered(batches: Seq<BatchModel>, t: TransactionType) -> Seq<Transaction>
    decreases batches.len(),
{
    if batches.len() == 0 {
        Seq::<Transaction>::empty()
    } else {
        let head = if batches[0].data_type == t {
            batches[0].batch_data
        } else {
            Seq::<Transaction>::empty()
        };
        head + delivered(batches.drop_first(), t)
    }
}

/// One ingest step keeps the cache invariant and the threshold.
pub proof fn lemma_spec_ingest_wf(c: CacheModel, e: Transaction)
    requires
        c.wf(),
    ensures
        spec_ingest(c, e).0.wf(),
        spec_ingest(c, e).0.threshold == c.threshold,
{
    let t = e.transaction_type;
    let next = spec_ingest(c, e).0;
    assert forall|u: TransactionType, i: int| 0 <= i < next.pending[u].len() implies (
    #[trigger] next.pending[u][i]).transaction_type == u by {
        if u == t && next.pending[t] == c.pending[t].push(e) {
            if i < c.pending[t].len() {
                assert(next.pending[u][i] == c.pending[t][i]);
            } else {
                assert(next.pending[u][i] == e);
            }
        }
    }
}

/// Unfolding `delivered` over a batch prepended to a run of batches.
proof fn lemma_delivered_cons(b: BatchModel, rest: Seq<BatchModel>, t: TransactionType)
    ensures
        delivered(seq![b] + rest, t) == (
        if b.data_type == t {
            b.batch_data
        } else {
            Seq::<Transaction>::empty()
        }) + delivered(rest, t),
{
    assert((seq![b] + rest).drop_first() =~= rest);
    assert((seq![b] + rest)[0] == b);
}

/// Ingesting events of one single category, too few to reach the threshold:
/// nothing is emitted, the category's sequence grows by exactly those events
/// in order, and every other category is untouched.
pub proof fn lemma_run_below_threshold(c: CacheModel, events: Seq<Transaction>, t: TransactionType)
    requires
        c.wf(),
        forall|i: int| 0 <= i < events.len() ==> (#[trigger] events[i]).transaction_type == t,
        c.pending[t].len() + events.len() < c.threshold,
    ensures
        spec_ingest_all(c, events).1 == Seq::<BatchModel>::empty(),
        spec_ingest_all(c, events).0.wf(),
        spec_ingest_all(c, events).0.threshold == c.threshold,
        spec_ingest_all(c, events).0.pending[t] == c.pending[t] + events,
        forall|u: TransactionType|
            u != t ==> #[trigger] spec_ingest_all(c, events).0.pending[u] == c.pending[u],
    decreases events.len(),
{
    if events.len() == 0 {
        assert(c.pending[t] + events =~= c.pending[t]);
    } else {
        let e = events[0];
        let c1 = spec_ingest(c, e).0;
        assert(c.pending[t].push(e).len() < c.threshold);
        assert(spec_ingest(c, e).1 is None);
        lemma_spec_ingest_wf(c, e);
        assert(c1.pending[t] == c.pending[t].push(e));
        assert forall|i: int| 0 <= i < events.drop_first().len() implies (#[trigger] events.drop_first()[
        i]).transaction_type == t by {
            assert(events.drop_first()[i] == events[i + 1]);
        }
        lemma_run_below_threshold(c1, events.drop_first(), t);
        assert(c1.pending[t] + events.drop_first() =~= c.pending[t] + events);
    }
}

/// Below the threshold and with no timer tick, nothing at all is written;
/// the next timer tick then writes exactly one batch carrying all the events
/// in arrival order, and leaves the cache empty.
pub proof fn lemma_quiet_until_timer(c: CacheModel, events: Seq<Transaction>, t: TransactionType)
    requires
        c.wf(),
        forall|u: TransactionType| (#[trigger] c.pending[u]).len() == 0,
        forall|i: int| 0 <= i < events.len() ==> (#[trigger] events[i]).transaction_type == t,
        0 < events.len(),
        events.len() < c.threshold,
    ensures
        spec_ingest_all(c, events).1 == Seq::<BatchModel>::empty(),
        spec_timer_batches(spec_ingest_all(c, events).0) == seq![
            BatchModel { data_type: t, batch_data: events },
        ],
        forall|u: TransactionType|
            (#[trigger] spec_timer_state(spec_ingest_all(c, events).0).pending[u]).len() == 0,
{
    lemma_run_below_threshold(c, events, t);
    let c1 = spec_ingest_all(c, events).0;
    assert(c1.pending[t] =~= events);
    assert(batch_of(c1, t) == BatchModel { data_type: t, batch_data: events });
    match t {
        TransactionType::Bet => {
            assert(spec_timer_batches(c1) =~= seq![batch_of(c1, t)]);
        },
        TransactionType::Trade => {
            assert(spec_timer_batches(c1) =~= seq![batch_of(c1, t)]);
        },
        TransactionType::Deposit => {
            assert(spec_timer_batches(c1) =~= seq![batch_of(c1, t)]);
        },
        TransactionType::Withdrawal => {
            assert(spec_timer_batches(c1) =~= seq![batch_of(c1, t)]);
        },
    }
}

/// Ingesting events of one single category until its pending count reaches
/// the threshold exactly: one batch is emitted at that very ingest, carrying
/// exactly threshold-many events in arrival order, and the category is empty
/// immediately afterwards.
pub proof fn lemma_threshold_flush(c: CacheModel, events: Seq<Transaction>, t: TransactionType)
    requires
        c.wf(),
        forall|i: int| 0 <= i < events.len() ==> (#[trigger] events[i]).transaction_type == t,
        1 <= events.len(),
        c.pending[t].len() + events.len() == c.threshold,
    ensures
        spec_ingest_all(c, events).1 == seq![
            BatchModel { data_type: t, batch_data: c.pending[t] + events },
        ],
        (c.pending[t] + events).len() == c.threshold,
        spec_ingest_all(c, events).0.wf(),
        spec_ingest_all(c, events).0.pending[t].len() == 0,
    decreases events.len(),
{
    let e = events[0];
    let c1 = spec_ingest(c, e).0;
    lemma_spec_ingest_wf(c, e);
    assert forall|i: int| 0 <= i < events.drop_first().len() implies (#[trigger] events.drop_first()[
    i]).transaction_type == t by {
        assert(events.drop_first()[i] == events[i + 1]);
    }
    if events.len() == 1 {
        assert(c.pending[t].push(e).len() >= c.threshold);
        let b = spec_ingest(c, e).1->Some_0;
        assert(b.batch_data =~= c.pending[t] + events);
        assert(spec_ingest_all(c1, events.drop_first()).1 == Seq::<BatchModel>::empty());
        assert(spec_ingest_all(c, events).1 =~= seq![
            BatchModel { data_type: t, batch_data: c.pending[t] + events },
        ]);
    } else {
        assert(c.pending[t].push(e).len() < c.threshold);
        assert(spec_ingest(c, e).1 is None);
        assert(c1.pending[t] == c.pending[t].push(e));
        lemma_threshold_flush(c1, events.drop_first(), t);
        assert(c1.pending[t] + events.drop_first() =~= c.pending[t] + events);
    }
}

/// Categories are independent: an ingest touches only its own category, and
/// a batch it emits carries only events of that category.
pub proof fn lemma_ingest_independent(c: CacheModel, e: Transaction, u: TransactionType)
    requires
        c.wf(),
        e.transaction_type != u,
    ensures
        spec_ingest(c, e).0.pending[u] == c.pending[u],
        spec_ingest(c, e).1 matches Some(b) ==> b.data_type == e.transaction_type && forall|i: int|
            0 <= i < b.batch_data.len() ==> (#[trigger] b.batch_data[i]).transaction_type
                == e.transaction_type,
{
    let t = e.transaction_type;
    if spec_ingest(c, e).1 is Some {
        let b = spec_ingest(c, e).1->Some_0;
        assert forall|i: int| 0 <= i < b.batch_data.len() implies (#[trigger] b.batch_data[i]).transaction_type
            == t by {
            if i < c.pending[t].len() {
                assert(b.batch_data[i] == c.pending[t][i]);
            } else {
                assert(b.batch_data[i] == e);
            }
        }
    }
}

/// Flushing one category never includes, clears or reorders events held for
/// another: the flushed batch carries only its own category's events, and
/// every other category's sequence is untouched.
pub proof fn lemma_flush_independent(c: CacheModel, t: TransactionType, u: TransactionType)
    requires
        c.wf(),
        t != u,
    ensures
        spec_flush_category(c, t).0.pending[u] == c.pending[u],
        forall|i: int|
            0 <= i < spec_flush_category(c, t).1.batch_data.len() ==> (
            #[trigger] spec_flush_category(c, t).1.batch_data[i]).transaction_type == t,
{
}

/// Every batch a timer tick emits is the whole pending sequence of its own
/// category, and is non-empty.
pub proof fn lemma_timer_batches_shape(c: CacheModel)
    ensures
        forall|i: int|
            0 <= i < spec_timer_batches(c).len() ==> (#[trigger] spec_timer_batches(c)[i]).batch_data
                == c.pending[spec_timer_batches(c)[i].data_type] && spec_timer_batches(
                c,
            )[i].batch_data.len() > 0,
{
}

/// No redelivery: after a flush of a category, a second flush of it with no
/// intervening ingest carries zero events, and a timer tick emits no batch
/// for it at all.
pub proof fn lemma_no_redelivery(c: CacheModel, t: TransactionType)
    requires
        c.wf(),
    ensures
        spec_flush_category(spec_flush_category(c, t).0, t).1.batch_data
            == Seq::<Transaction>::empty(),
        forall|i: int|
            0 <= i < spec_timer_batches(spec_flush_category(c, t).0).len() ==> (
            #[trigger] spec_timer_batches(spec_flush_category(c, t).0)[i]).data_type != t,
{
    let c1 = spec_flush_category(c, t).0;
    assert(c1.pending[t].len() == 0);
    lemma_timer_batches_shape(c1);
    assert forall|i: int| 0 <= i < spec_timer_batches(c1).len() implies (
    #[trigger] spec_timer_batches(c1)[i]).data_type != t by {
        if spec_timer_batches(c1)[i].data_type == t {
            assert(spec_timer_batches(c1)[i].batch_data == c1.pending[t]);
        }
    }
}

/// Order is preserved and nothing is lost or duplicated: for any category,
/// what its batches deliver in emission order, followed by what is still
/// pending for it, is exactly what was pending before plus that category's
/// events in arrival order.
pub proof fn lemma_order_and_conservation(c: CacheModel, events: Seq<Transaction>, t: TransactionType)
    requires
        c.wf(),
    ensures
        spec_ingest_all(c, events).0.wf(),
        delivered(spec_ingest_all(c, events).1, t) + spec_ingest_all(c, events).0.pending[t]
            == c.pending[t] + of_category(events, t),
    decreases events.len(),
{
    if events.len() == 0 {
        assert(delivered(spec_ingest_all(c, events).1, t) + c.pending[t] =~= c.pending[t]
            + of_category(events, t));
    } else {
        let e = events[0];
        let et = e.transaction_type;
        let c1 = spec_ingest(c, e).0;
        lemma_spec_ingest_wf(c, e);
        lemma_order_and_conservation(c1, events.drop_first(), t);
        let rest = spec_ingest_all(c1, events.drop_first());
        match spec_ingest(c, e).1 {
            Some(b) => {
                lemma_delivered_cons(b, rest.1, t);
                if et == t {
                    assert(b.batch_data == c.pending[t].push(e));
                    assert(c1.pending[t].len() == 0);
                    assert(c.pending[t].push(e) + (delivered(rest.1, t) + rest.0.pending[t]) =~= c.pending[t]
                        + (seq![e] + of_category(events.drop_first(), t)));
                    assert(delivered(spec_ingest_all(c, events).1, t) + spec_ingest_all(
                        c,
                        events,
                    ).0.pending[t] =~= c.pending[t] + of_category(events, t));
                } else {
                    assert(b.data_type != t);
                    assert(c1.pending[t] == c.pending[t]);
                    assert(of_category(events, t) == of_category(events.drop_first(), t));
                    assert(delivered(spec_ingest_all(c, events).1, t) + spec_ingest_all(
                        c,
                        events,
                    ).0.pending[t] =~= c.pending[t] + of_category(events, t));
                }
            },
            None => {
                if et == t {
                    assert(c1.pending[t] == c.pending[t].push(e));
                    assert(delivered(rest.1, t) + rest.0.pending[t] =~= c.pending[t].push(e)
                        + of_category(events.drop_first(), t));
                    assert(c.pending[t].push(e) + of_category(events.drop_first(), t) =~= c.pending[t]
                        + of_category(events, t));
                } else {
                    assert(c1.pending[t] == c.pending[t]);
                    assert(of_category(events, t) == of_category(events.drop_first(), t));
                }
            },
        }
    }
}

} // verus!
