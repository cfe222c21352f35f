use vstd::prelude::*;

use crate::identity::Identity;

verus! {

/// The lifecycle of a transaction. `Created` is the initial state; the two
/// terminal states are `Executed` (a buyer took the offer) and `Cancelled`
/// (an authority withdrew it). No transition leaves a terminal state.
#[derive(Clone, Copy, Debug, PartialEq, Eq, Structural)]
pub enum TransactionStatus {
    Created,
    Executed,
    Cancelled,
}

/// The one failure the core itself raises: `execute_transaction` or
/// `cancel_transaction` was invoked against a transaction that is not in
/// the `Created` state. Failures of the external collaborators (identity,
/// clock, persistence) are theirs to report and are kept distinct from this.
#[derive(Clone, Copy, Debug, PartialEq, Eq, Structural)]
pub enum GenomeError {
    InvalidTransactionStatus,
}

/// A price-and-duration-bound offer to transfer rights to a genome record
/// from `seller` to a buyer. `genome_id` refers to a genome record by value;
/// the core does not check that the referenced record exists. `seller`,
/// `price`, `duration`, `genome_id` and `created_at` never change after
/// creation; `buyer` and `executed_at` are set exactly once, together with
/// the transition to `Executed`.
#[derive(Clone, Debug, PartialEq, Eq)]
pub struct Transaction {
    pub genome_id: String,
    pub seller: Identity,
    pub buyer: Option<Identity>,
    pub price: u64,
    pub duration: i64,
    pub status: TransactionStatus,
    pub created_at: i64,
    pub executed_at: Option<i64>,
}

impl Transaction {
    /// The transaction's internal invariant: `buyer` and `executed_at` are
    /// both unset exactly as long as the transaction has not been executed.
    pub open spec fn wf(self) -> bool {
        &&& self.buyer is Some <==> self.status is Executed
        &&& self.executed_at is Some <==> self.status is Executed
    }
}

/// The transaction that a successful execution turns `pre` into: `buyer`
/// and `executed_at` become set, the status becomes `Executed`, and every
/// other field is kept.
pub open spec fn executed_from(pre: Transaction, buyer: Identity, now: i64) -> Transaction {
    Transaction {
        buyer: Some(buyer),
        status: TransactionStatus::Executed,
        executed_at: Some(now),
        ..pre
    }
}

/// The transaction that a successful cancellation turns `pre` into: only
/// the status changes, to `Cancelled`.
pub open spec fn cancelled_from(pre: Transaction) -> Transaction {
    Transaction {
        status: TransactionStatus::Cancelled,
        ..pre
    }
}

/// Opens a transaction: a new offer in the `Created` state, with no buyer
/// and no execution time, the remaining fields stored verbatim. The core
/// puts no bounds on `price` or `duration` (zero or negative values are
/// accepted); range validation belongs to the business layer.
pub fn create_transaction(genome_id: String, price: u64, duration: i64, seller: Identity, now: i64) -> (transaction: Transaction)
    ensures
        transaction.genome_id == genome_id,
        transaction.seller == seller,
        transaction.buyer is None,
        transaction.price == price,
        transaction.duration == duration,
        transaction.status is Created,
        transaction.created_at == now,
        transaction.executed_at is None,
        transaction.wf(),
{
    Transaction {
        genome_id,
        seller,
        buyer: None,
        price,
        duration,
        status: TransactionStatus::Created,
        created_at: now,
        executed_at: None,
    }
}

/// Executes a transaction on behalf of `buyer`: exactly when the current
/// status is `Created`, the buyer, the execution time and the `Executed`
/// status are recorded together, in one atomic mutation, and every other
/// field is kept. Against any other status the call fails with
/// `InvalidTransactionStatus` and the transaction is left untouched.
///
/// The core does not check that `buyer` differs from the seller, nor that
/// any payment of `price` occurred: both are the business layer's concern.
pub fn execute_transaction(transaction: &mut Transaction, buyer: Identity, now: i64) -> (result: Result<(), GenomeError>)
    ensures
        result is Ok <==> old(transaction).status is Created,
        old(transaction).status is Created ==> *final(transaction) == executed_from(*old(transaction), buyer, now),
        !(old(transaction).status is Created) ==> *final(transaction) == *old(transaction)
            && result == Err::<(), GenomeError>(GenomeError::InvalidTransactionStatus),
        old(transaction).wf() ==> final(transaction).wf(),
{
    if transaction.status != TransactionStatus::Created {
        return Err(GenomeError::InvalidTransactionStatus);
    }
    transaction.buyer = Some(buyer);
    transaction.status = TransactionStatus::Executed;
    transaction.executed_at = Some(now);
    Ok(())
}

/// Cancels a transaction: exactly when the current status is `Created`, it
/// becomes `Cancelled` and no other field changes. Against any other status
/// the call fails with `InvalidTransactionStatus` and the transaction is
/// left untouched.
///
/// Any `authority` identity is accepted; the core does not require it to
/// equal the seller. Who may cancel is the caller's policy to enforce.
#[allow(unused_variables)]
pub fn cancel_transaction(transaction: &mut Transaction, authority: Identity) -> (result: Result<(), GenomeError>)
    ensures
        result is Ok <==> old(transaction).status is Created,
        old(transaction).status is Created ==> *final(transaction) == cancelled_from(*old(transaction)),
        !(old(transaction).status is Created) ==> *final(transaction) == *old(transaction)
            && result == Err::<(), GenomeError>(GenomeError::InvalidTransactionStatus),
        old(transaction).wf() ==> final(transaction).wf(),
{
    if transaction.status != TransactionStatus::Created {
        return Err(GenomeError::InvalidTransactionStatus);
    }
    transaction.status = TransactionStatus::Cancelled;
    Ok(())
}

} // verus!
