//! Synthetic event generation for the producing side: a random record with
//! one of the four categories, and the key/payload pair its queue record
//! carries.

use vstd::prelude::*;

use rand::Rng;

use crate::batch::{json_of, serialize_transaction};
use crate::model::{Transaction, TransactionType};
use crate::textfmt::{dec_digits, u64_to_string};

verus! {

/// Relies on rand::Rng::gen_range on the thread-local generator: for a
/// non-empty half-open range the sample lies within it. The call panics on
/// an empty range, which the precondition rules out; nothing more can be
/// promised of a random draw.
#[verifier::external_body]
fn random_in(lo: u64, hi: u64) -> (r: u64)
    requires
        lo < hi,
    ensures
        lo <= r < hi,
{
    rand::thread_rng().gen_range(lo..hi)
}

/// A synthetic event: fresh random identifier, owner and amount, and one of
/// the four categories drawn at random.
pub fn generate_transaction() -> (t: Transaction)
    ensures
        1 <= t.id < 1000000000,
        1 <= t.user_id < 1000000000,
        1 <= t.amount < 1000,
{
    let kind = random_in(0, 4);
    let transaction_type = if kind == 0 {
        TransactionType::Bet
    } else if kind == 1 {
        TransactionType::Trade
    } else if kind == 2 {
        TransactionType::Deposit
    } else {
        TransactionType::Withdrawal
    };
    Transaction {
        id: random_in(1, 1000000000),
        user_id: random_in(1, 1000000000),
        amount: random_in(1, 1000),
        transaction_type,
    }
}

/// The queue record produced for one event: the key is the identifier's
/// string form, the payload the event's serialized record.
pub fn event_record(t: &Transaction) -> (kv: (String, String))
    ensures
        kv.0@ == dec_digits(t.id as nat),
        kv.1@ == json_of(*t),
{
    (u64_to_string(t.id), serialize_transaction(t))
}

} // verus!
