//! The read-side service's computation: the statements it queries the store
//! with, and the flattening of the rows that come back.

use vstd::prelude::*;
use vstd::string::StringExecFns;

use crate::model::{Transaction, TransactionType};

verus! {

/// A select over one collection of the given bucket and scope.
pub open spec fn select_from_of(bucket: Seq<char>, scope: Seq<char>, collection: Seq<char>) -> Seq<
    char,
> {
    "SELECT * FROM `"@ + bucket + "`.`"@ + scope + "`.`"@ + collection + "`"@
}

/// The select over all four category collections, in the fixed category
/// order.
pub open spec fn select_all_of(bucket: Seq<char>, scope: Seq<char>) -> Seq<char> {
    select_from_of(bucket, scope, TransactionType::Bet.spec_name()) + " UNION ALL "@
        + select_from_of(bucket, scope, TransactionType::Trade.spec_name()) + " UNION ALL "@
        + select_from_of(bucket, scope, TransactionType::Deposit.spec_name()) + " UNION ALL "@
        + select_from_of(bucket, scope, TransactionType::Withdrawal.spec_name())
}

/// Appends a select over one collection to `s`.
fn push_select_from(s: &mut String, bucket: &str, scope: &str, collection: &str)
    ensures
        final(s)@ == old(s)@ + select_from_of(bucket@, scope@, collection@),
{
    s.append("SELECT * FROM `");
    s.append(bucket);
    s.append("`.`");
    s.append(scope);
    s.append("`.`");
    s.append(collection);
    s.append("`");
    proof {
        assert(final(s)@ =~= old(s)@ + select_from_of(bucket@, scope@, collection@));
    }
}

/// The statement that fetches one category's transactions: a select over the
/// collection named after the requested category.
pub fn select_by_type_query(bucket: &str, scope: &str, collection: &str) -> (q: String)
    ensures
        q@ == select_from_of(bucket@, scope@, collection@),
{
    let mut s = String::new();
    push_select_from(&mut s, bucket, scope, collection);
    proof {
        assert(s@ =~= select_from_of(bucket@, scope@, collection@));
    }
    s
}

/// The statement that fetches every category's transactions: the union over
/// the four category collections.
pub fn select_all_query(bucket: &str, scope: &str) -> (q: String)
    ensures
        q@ == select_all_of(bucket@, scope@),
{
    let mut s = String::new();
    push_select_from(&mut s, bucket, scope, TransactionType::Bet.name());
    s.append(" UNION ALL ");
    push_select_from(&mut s, bucket, scope, TransactionType::Trade.name());
    s.append(" UNION ALL ");
    push_select_from(&mut s, bucket, scope, TransactionType::Deposit.name());
    s.append(" UNION ALL ");
    push_select_from(&mut s, bucket, scope, TransactionType::Withdrawal.name());
    proof {
        assert(s@ =~= select_all_of(bucket@, scope@));
    }
    s
}

/// The views of a list of rows.
pub open spec fn views_of(rows: Seq<Vec<Transaction>>) -> Seq<Seq<Transaction>> {
    rows.map_values(|v: Vec<Transaction>| v@)
}

/// The rows joined end to end, keeping row order and in-row order.
pub open spec fn flattened(rows: Seq<Seq<Transaction>>) -> Seq<Transaction>
    decreases rows.len(),
{
    if rows.len() == 0 {
        Seq::<Transaction>::empty()
    } else {
        flattened(rows.drop_last()) + rows.last()
    }
}

/// Flattens the transactions of the returned rows into the response list,
/// keeping row order and the order within each row.
pub fn collect_rows(rows: &Vec<Vec<Transaction>>) -> (r: Vec<Transaction>)
    ensures
        r@ == flattened(views_of(rows@)),
{
    let mut out: Vec<Transaction> = Vec::new();
    proof {
        assert(views_of(rows@).take(0) =~= Seq::<Seq<Transaction>>::empty());
    }
    let n = rows.len();
    let mut i: usize = 0;
    while i < n
        invariant
            i <= n,
            n == rows@.len(),
            out@ == flattened(views_of(rows@).take(i as int)),
        decreases n - i,
    {
        let row = &rows[i];
        let m = row.len();
        let mut j: usize = 0;
        while j < m
            invariant
                j <= m,
                i < n,
                n == rows@.len(),
                m == row@.len(),
                row == &rows@[i as int],
                out@ == flattened(views_of(rows@).take(i as int)) + row@.take(j as int),
            decreases m - j,
        {
            out.push(row[j]);
            proof {
                assert(row@.take(j + 1) =~= row@.take(j as int).push(row@[j as int]));
            }
            j = j + 1;
        }
        proof {
            assert(views_of(rows@).take(i + 1).drop_last() =~= views_of(rows@).take(i as int));
            assert(views_of(rows@).take(i + 1).last() == rows@[i as int]@);
            assert(row@.take(m as int) =~= row@);
            assert(out@ =~= flattened(views_of(rows@).take(i + 1)));
        }
        i = i + 1;
    }
    proof {
        assert(views_of(rows@).take(n as int) =~= views_of(rows@));
    }
    out
}

} // verus!
