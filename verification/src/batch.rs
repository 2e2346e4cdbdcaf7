//! The write stage's request building: one bulk insert statement per batch,
//! keyed by each event's identifier, valued with the event's full serialized
//! record, addressed at the collection named after the batch's category
//! within the fixed bucket and scope.

use vstd::prelude::*;
use vstd::string::StringExecFns;

use crate::messages::BatchMessage;
use crate::model::Transaction;
use crate::model::TransactionType;
use crate::state::BatchModel;
use crate::textfmt::{dec_digits, push_digits};

verus! {

/// The serialized JSON record of one event.
pub open spec fn json_of(t: Transaction) -> Seq<char> {
    "{\"id\":"@ + dec_digits(t.id as nat) + ",\"user_id\":"@ + dec_digits(t.user_id as nat)
        + ",\"amount\":"@ + dec_digits(t.amount as nat) + ",\"transaction_type\":\""@
        + t.transaction_type.spec_name() + "\"}"@
}

/// The store key of one event: its identifier's string form, quoted.
pub open spec fn key_of(t: Transaction) -> Seq<char> {
    "\""@ + dec_digits(t.id as nat) + "\""@
}

/// One (key, value) element of the bulk insert.
pub open spec fn pair_of(t: Transaction) -> Seq<char> {
    "("@ + key_of(t) + ", "@ + json_of(t) + ")"@
}

/// All of a batch's (key, value) elements, in batch order, joined by commas.
pub open spec fn pairs_of(s: Seq<Transaction>) -> Seq<char>
    decreases s.len(),
{
    if s.len() == 0 {
        Seq::<char>::empty()
    } else if s.len() == 1 {
        pair_of(s[0])
    } else {
        pairs_of(s.drop_last()) + ", "@ + pair_of(s.last())
    }
}

/// Everything of the insert statement before the (key, value) elements. The
/// bucket and scope are fixed; the collection is named after the category.
pub open spec fn insert_prefix_of(t: TransactionType) -> Seq<char> {
    "INSERT INTO `transactions`.`transactions`.`"@ + t.spec_name() + "` (KEY, VALUE) VALUES "@
}

/// The whole bulk insert statement for one batch.
pub open spec fn insert_query_of(b: BatchModel) -> Seq<char> {
    insert_prefix_of(b.data_type) + pairs_of(b.batch_data)
}

/// Serializes one event as its JSON record.
pub fn serialize_transaction(t: &Transaction) -> (r: String)
    ensures
        r@ == json_of(*t),
{
    let mut s = String::new();
    s.append("{\"id\":");
    push_digits(&mut s, t.id);
    s.append(",\"user_id\":");
    push_digits(&mut s, t.user_id);
    s.append(",\"amount\":");
    push_digits(&mut s, t.amount);
    s.append(",\"transaction_type\":\"");
    s.append(t.transaction_type.name());
    s.append("\"}");
    proof {
        assert(s@ =~= json_of(*t));
    }
    s
}

/// The store key of one event.
pub fn key_string(t: &Transaction) -> (r: String)
    ensures
        r@ == key_of(*t),
{
    let mut s = String::new();
    s.append("\"");
    push_digits(&mut s, t.id);
    s.append("\"");
    proof {
        assert(s@ =~= key_of(*t));
    }
    s
}

/// One (key, value) element of the bulk insert.
fn pair_string(t: &Transaction) -> (r: String)
    ensures
        r@ == pair_of(*t),
{
    let mut s = String::new();
    s.append("(");
    let k = key_string(t);
    s.append(k.as_str());
    s.append(", ");
    let v = serialize_transaction(t);
    s.append(v.as_str());
    s.append(")");
    proof {
        assert(s@ =~= pair_of(*t));
    }
    s
}

/// Builds the one bulk insert statement that the write stage issues for a
/// batch: every event of the batch, in batch order, keyed by its identifier.
pub fn insert_query(batch: &BatchMessage) -> (q: String)
    ensures
        q@ == insert_query_of(batch@),
{
    let mut s = String::new();
    s.append("INSERT INTO `transactions`.`transactions`.`");
    s.append(batch.data_type.name());
    s.append("` (KEY, VALUE) VALUES ");
    proof {
        assert(s@ =~= insert_prefix_of(batch@.data_type));
        assert(batch.batch_data@.take(0) =~= Seq::<Transaction>::empty());
        assert(s@ =~= insert_prefix_of(batch@.data_type) + pairs_of(batch.batch_data@.take(0)));
    }
    let n = batch.batch_data.len();
    let mut i: usize = 0;
    while i < n
        invariant
            i <= n,
            n == batch.batch_data@.len(),
            s@ == insert_prefix_of(batch@.data_type) + pairs_of(batch.batch_data@.take(i as int)),
        decreases n - i,
    {
        if i > 0 {
            s.append(", ");
        }
        let p = pair_string(&batch.batch_data[i]);
        s.append(p.as_str());
        proof {
            assert(batch.batch_data@.take(i + 1).drop_last() =~= batch.batch_data@.take(i as int));
            assert(batch.batch_data@.take(i + 1).last() == batch.batch_data@[i as int]);
            assert(s@ =~= insert_prefix_of(batch@.data_type) + pairs_of(
                batch.batch_data@.take(i + 1),
            ));
        }
        i = i + 1;
    }
    proof {
        assert(batch.batch_data@.take(n as int) =~= batch.batch_data@);
    }
    s
}

} // verus!
