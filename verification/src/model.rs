//! The event record and its closed set of categories.

use vstd::prelude::*;

verus! {

/// The closed set of event categories. A category both partitions buffered
/// events and names the destination collection they are written to; an
/// unrecognized category cannot exist by construction.
#[derive(Clone, Copy, PartialEq, Eq, Structural, Debug, Hash)]
pub enum TransactionType {
    Bet,
    Trade,
    Deposit,
    Withdrawal,
}

impl TransactionType {
    /// The lower-case destination name of this category, as used in store
    /// collection names and serialized records.
    pub open spec fn spec_name(self) -> Seq<char> {
        match self {
            TransactionType::Bet => "bet"@,
            TransactionType::Trade => "trade"@,
            TransactionType::Deposit => "deposit"@,
            TransactionType::Withdrawal => "withdrawal"@,
        }
    }

    /// The lower-case destination name of this category.
    pub fn name(&self) -> (r: &'static str)
        ensures
            r@ == self.spec_name(),
    {
        match self {
            TransactionType::Bet => "bet",
            TransactionType::Trade => "trade",
            TransactionType::Deposit => "deposit",
            TransactionType::Withdrawal => "withdrawal",
        }
    }
}

/// One immutable event record. The amount is held in minor currency units,
/// so that the record is made of plain integers throughout.
#[derive(Clone, Copy, PartialEq, Eq, Structural, Debug)]
pub struct Transaction {
    pub id: u64,
    pub user_id: u64,
    pub amount: u64,
    pub transaction_type: TransactionType,
}

} // verus!
