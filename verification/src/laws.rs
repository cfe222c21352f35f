use vstd::prelude::*;

use crate::identity::Identity;
use crate::ledger::Transaction;
use crate::ledger::cancelled_from;
use crate::ledger::executed_from;

verus! {

/// A transaction's status moves only along the two edges of the state
/// machine: a successful execution takes a `Created` transaction to
/// `Executed`, a successful cancellation takes it to `Cancelled`, and both
/// successors are terminal, i.e. no longer `Created`, so the guard of
/// `execute_transaction` and `cancel_transaction` rejects every further
/// transition out of them.
pub proof fn lemma_status_transitions(pre: Transaction, buyer: Identity, now: i64)
    requires
        pre.status is Created,
    ensures
        executed_from(pre, buyer, now).status is Executed,
        cancelled_from(pre).status is Cancelled,
        !(executed_from(pre, buyer, now).status is Created),
        !(cancelled_from(pre).status is Created),
{
}

/// A terminal transaction is not `Created`, so by the contracts of
/// `execute_transaction` and `cancel_transaction` both calls fail on it
/// with `InvalidTransactionStatus` and leave it unchanged.
pub proof fn lemma_terminal_is_rejected(transaction: Transaction)
    requires
        transaction.status is Executed || transaction.status is Cancelled,
    ensures
        !(transaction.status is Created),
{
}

/// `buyer` and `executed_at` become set together, in the same transition
/// that sets the status to `Executed`, and a cancellation sets neither; so
/// both operations preserve the invariant that the two fields are set
/// exactly when the transaction has been executed.
pub proof fn lemma_buyer_and_time_set_together(pre: Transaction, buyer: Identity, now: i64)
    requires
        pre.wf(),
    ensures
        executed_from(pre, buyer, now).buyer == Some(buyer),
        executed_from(pre, buyer, now).executed_at == Some(now),
        executed_from(pre, buyer, now).wf(),
        cancelled_from(pre).buyer == pre.buyer,
        cancelled_from(pre).executed_at == pre.executed_at,
        pre.status is Created ==> cancelled_from(pre).wf(),
{
}

/// The fields fixed at creation — `genome_id`, `seller`, `price`,
/// `duration`, `created_at` — are identical before and after a successful
/// execution or cancellation.
pub proof fn lemma_immutable_fields(pre: Transaction, buyer: Identity, now: i64)
    ensures
        executed_from(pre, buyer, now).genome_id == pre.genome_id,
        executed_from(pre, buyer, now).seller == pre.seller,
        executed_from(pre, buyer, now).price == pre.price,
        executed_from(pre, buyer, now).duration == pre.duration,
        executed_from(pre, buyer, now).created_at == pre.created_at,
        cancelled_from(pre).genome_id == pre.genome_id,
        cancelled_from(pre).seller == pre.seller,
        cancelled_from(pre).price == pre.price,
        cancelled_from(pre).duration == pre.duration,
        cancelled_from(pre).created_at == pre.created_at,
{
}

} // verus!
