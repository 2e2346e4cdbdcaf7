//! The two messages that cross stage boundaries: one event into the
//! aggregation stage, one completed batch out of it.

use vstd::prelude::*;

use crate::model::{Transaction, TransactionType};
use crate::state::BatchModel;

verus! {

/// One decoded event, handed from the event source to the aggregation stage.
pub struct StateMessage {
    pub single_data: Transaction,
}

/// An immutable snapshot of one category's pending events at flush time,
/// handed from the aggregation stage to the write stage.
pub struct BatchMessage {
    pub data_type: TransactionType,
    pub batch_data: Vec<Transaction>,
}

impl View for BatchMessage {
    type V = BatchModel;

    open spec fn view(&self) -> BatchModel {
        BatchModel { data_type: self.data_type, batch_data: self.batch_data@ }
    }
}

} // verus!
