use vstd::prelude::*;

use crate::error::TransactionDbError;
use crate::storage::tables::{adjusted, Tables};
use crate::storage::types::{NewTransaction, Transaction, TransactionStatus};

verus! {

impl Tables {
    /// The ledger row of a transfer that was applied: the request as it came,
    /// numbered by the ledger and marked completed.
    pub open spec fn transfer_row(self, new: NewTransaction) -> Transaction {
        Transaction {
            id: (self.transactions.len() + 1) as i32,
            transaction_id: new.transaction_id,
            sender_id: new.sender_id,
            recipient_id: new.recipient_id,
            amount_in_rs: new.amount_in_rs,
            description: new.description,
            created_at: new.created_at,
            status: TransactionStatus::Completed,
            updated_at: new.updated_at,
        }
    }

    /// The accounts after the sender was debited.
    pub open spec fn debited(self, new: NewTransaction) -> Seq<crate::storage::types::User> {
        adjusted(self.users, self.user_index(new.sender_id@), -new.amount_in_rs)
    }

    /// The accounts after the sender was debited and the recipient credited.
    pub open spec fn credited(self, new: NewTransaction) -> Seq<crate::storage::types::User> {
        adjusted(self.debited(new), self.user_index(new.recipient_id@), new.amount_in_rs as int)
    }

    /// Why a transfer is refused, if it is. In this order: the amount is not
    /// positive; one of the two accounts does not exist; the sender's balance
    /// is smaller than the amount; the recipient's balance would leave the
    /// range of balances; the ledger does not take the record, because its
    /// identifier is taken or no row number is left.
    pub open spec fn transfer_refusal(self, new: NewTransaction) -> Option<TransactionDbError> {
        let recipient = self.user_index(new.recipient_id@);
        if new.amount_in_rs <= 0 {
            Some(TransactionDbError::DBInsertError)
        } else if !self.has_user(new.sender_id@) || !self.has_user(new.recipient_id@) {
            Some(TransactionDbError::NotFoundError)
        } else if self.balance_of(new.sender_id@) < new.amount_in_rs {
            Some(TransactionDbError::InsufficientFunds)
        } else if self.debited(new)[recipient].balance_in_rs + new.amount_in_rs > i64::MAX {
            Some(TransactionDbError::DBUpdateError)
        } else if self.has_transaction(new.transaction_id@) || self.transactions.len()
            >= i32::MAX {
            Some(TransactionDbError::DBInsertError)
        } else {
            None
        }
    }

    /// The tables after a transfer was applied: the sender debited, the
    /// recipient credited, the record appended to the ledger.
    pub open spec fn transfer_applied(self, new: NewTransaction) -> Tables {
        Tables {
            users: self.credited(new),
            transactions: self.transactions.push(self.transfer_row(new)),
        }
    }

    /// The tables a transfer request leaves: all of its effects, or none.
    pub open spec fn after_transfer(self, new: NewTransaction) -> Tables {
        if self.transfer_refusal(new) is None {
            self.transfer_applied(new)
        } else {
            self
        }
    }
}

/// How often one transfer is attempted before a failing commit is given up.
pub const MAX_ATTEMPTS: u8 = 3;

/// How a step in the store failed.
#[derive(Debug, Clone, Copy, PartialEq, Eq, Structural)]
pub enum StoreFault {
    /// The connection was lost or the commit conflicted: trying again may help.
    Transient,
    /// The store refused the statement.
    Permanent,
}

/// What the store answers to one step of a transfer.
#[derive(Debug, Clone, Copy, PartialEq, Eq, Structural)]
pub enum StoreReply {
    /// A transaction is open.
    Opened,
    /// Whether the account asked for exists.
    Exists(bool),
    /// The sender's balance, read inside the transaction.
    Balance(i64),
    /// A balance was updated.
    Updated,
    /// The ledger took the record.
    Recorded,
    /// The transaction is committed.
    Committed,
    /// The transaction is rolled back.
    RolledBack,
    /// The step failed.
    Failed(StoreFault),
}

/// What the engine asks of the store next, or how the transfer ended.
#[derive(Debug, Clone, Copy, PartialEq, Eq, Structural)]
pub enum TransferAction {
    /// Open a transaction.
    Begin,
    /// Say whether the sender exists.
    CheckSender,
    /// Say whether the recipient exists.
    CheckRecipient,
    /// Read the sender's balance, locking the row.
    ReadBalance,
    /// Subtract the amount from the sender's balance.
    Debit,
    /// Add the amount to the recipient's balance.
    Credit,
    /// Insert the record, marked completed, into the ledger.
    Record,
    /// Commit the transaction.
    Commit,
    /// Roll the transaction back; the transfer fails with this error.
    Rollback(TransactionDbError),
    /// The transfer is applied and committed.
    Succeed,
    /// The transfer failed and nothing of it is applied.
    Fail(TransactionDbError),
}

impl TransferAction {
    /// Whether the transfer has ended.
    pub open spec fn is_final(self) -> bool {
        self is Succeed || self is Fail
    }

    /// How many steps are left at most after this one in one attempt.
    pub open spec fn rank(self) -> nat {
        match self {
            TransferAction::Begin => 9,
            TransferAction::CheckSender => 8,
            TransferAction::CheckRecipient => 7,
            TransferAction::ReadBalance => 6,
            TransferAction::Debit => 5,
            TransferAction::Credit => 4,
            TransferAction::Record => 3,
            TransferAction::Commit => 2,
            TransferAction::Rollback(_) => 1,
            TransferAction::Succeed => 0,
            TransferAction::Fail(_) => 0,
        }
    }
}

/// The engine's answer to a reply: the next action, given the action the
/// reply is to, the amount and the number of the attempt.
///
/// One attempt walks from `Begin` to `Commit`, one confirmed step at a time.
/// An absent account, a balance below the amount, a failed step or a reply
/// that does not fit the step rolls back and fails. A commit that fails
/// transiently starts the next attempt while one is left.
pub open spec fn next_action(
    awaiting: TransferAction,
    amount: i64,
    attempts: u8,
    reply: StoreReply,
) -> TransferAction {
    match awaiting {
        TransferAction::Begin => match reply {
            StoreReply::Opened => TransferAction::CheckSender,
            _ => TransferAction::Fail(TransactionDbError::DBError),
        },
        TransferAction::CheckSender => match reply {
            StoreReply::Exists(true) => TransferAction::CheckRecipient,
            StoreReply::Exists(false) => TransferAction::Rollback(TransactionDbError::NotFoundError),
            StoreReply::Failed(_) => TransferAction::Rollback(TransactionDbError::DBFilterError),
            _ => TransferAction::Rollback(TransactionDbError::UnknownError),
        },
        TransferAction::CheckRecipient => match reply {
            StoreReply::Exists(true) => TransferAction::ReadBalance,
            StoreReply::Exists(false) => TransferAction::Rollback(TransactionDbError::NotFoundError),
            StoreReply::Failed(_) => TransferAction::Rollback(TransactionDbError::DBFilterError),
            _ => TransferAction::Rollback(TransactionDbError::UnknownError),
        },
        TransferAction::ReadBalance => match reply {
            StoreReply::Balance(balance) => if balance < amount {
                TransferAction::Rollback(TransactionDbError::InsufficientFunds)
            } else {
                TransferAction::Debit
            },
            StoreReply::Failed(_) => TransferAction::Rollback(TransactionDbError::DBFilterError),
            _ => TransferAction::Rollback(TransactionDbError::UnknownError),
        },
        TransferAction::Debit => match reply {
            StoreReply::Updated => TransferAction::Credit,
            StoreReply::Failed(_) => TransferAction::Rollback(TransactionDbError::DBUpdateError),
            _ => TransferAction::Rollback(TransactionDbError::UnknownError),
        },
        TransferAction::Credit => match reply {
            StoreReply::Updated => TransferAction::Record,
            StoreReply::Failed(_) => TransferAction::Rollback(TransactionDbError::DBUpdateError),
            _ => TransferAction::Rollback(TransactionDbError::UnknownError),
        },
        TransferAction::Record => match reply {
            StoreReply::Recorded => TransferAction::Commit,
            StoreReply::Failed(_) => TransferAction::Rollback(TransactionDbError::DBInsertError),
            _ => TransferAction::Rollback(TransactionDbError::UnknownError),
        },
        TransferAction::Commit => match reply {
            StoreReply::Committed => TransferAction::Succeed,
            StoreReply::Failed(StoreFault::Transient) => if attempts < MAX_ATTEMPTS {
                TransferAction::Begin
            } else {
                TransferAction::Fail(TransactionDbError::DBInsertError)
            },
            StoreReply::Failed(StoreFault::Permanent) => TransferAction::Fail(
                TransactionDbError::DBInsertError,
            ),
            _ => TransferAction::Rollback(TransactionDbError::UnknownError),
        },
        TransferAction::Rollback(cause) => TransferAction::Fail(cause),
        TransferAction::Succeed => TransferAction::Succeed,
        TransferAction::Fail(cause) => TransferAction::Fail(cause),
    }
}

/// The number of the attempt after a reply: one more where the reply starts
/// the next attempt.
pub open spec fn next_attempts(awaiting: TransferAction, attempts: u8, reply: StoreReply) -> u8 {
    if awaiting == TransferAction::Commit && reply == StoreReply::Failed(StoreFault::Transient)
        && attempts < MAX_ATTEMPTS {
        (attempts + 1) as u8
    } else {
        attempts
    }
}

/// The engine of one transfer: it decides each step from the store's reply to
/// the step before, and holds nothing else between calls.
#[derive(Debug, Clone, Copy, PartialEq, Eq, Structural)]
pub struct TransferMachine {
    /// The amount to move.
    pub amount: i64,
    /// The action the next reply is to.
    pub awaiting: TransferAction,
    /// The number of the attempt, from 1.
    pub attempts: u8,
}

impl TransferMachine {
    /// A bound on the number of steps until the transfer ends.
    pub open spec fn steps_left(self) -> nat {
        if self.attempts >= MAX_ATTEMPTS {
            self.awaiting.rank()
        } else {
            ((MAX_ATTEMPTS - self.attempts) * 10 + self.awaiting.rank()) as nat
        }
    }

    /// The engine for a transfer of `amount`, with its first action: `Begin`,
    /// or failure at once where the amount is not positive.
    pub fn start(amount: i64) -> (machine: Self)
        ensures
            machine.amount == amount,
            machine.attempts == 1,
            machine.awaiting == (if amount <= 0 {
                TransferAction::Fail(TransactionDbError::DBInsertError)
            } else {
                TransferAction::Begin
            }),
    {
        let awaiting = if amount <= 0 {
            TransferAction::Fail(TransactionDbError::DBInsertError)
        } else {
            TransferAction::Begin
        };
        TransferMachine { amount, awaiting, attempts: 1 }
    }

    /// Takes the store's reply to the action last given and gives the next.
    pub fn step(&mut self, reply: StoreReply) -> (action: TransferAction)
        ensures
            action == next_action(old(self).awaiting, old(self).amount, old(self).attempts, reply),
            final(self).awaiting == action,
            final(self).amount == old(self).amount,
            final(self).attempts == next_attempts(old(self).awaiting, old(self).attempts, reply),
            !old(self).awaiting.is_final() ==> final(self).steps_left() < old(self).steps_left(),
    {
        let action = match self.awaiting {
            TransferAction::Begin => match reply {
                StoreReply::Opened => TransferAction::CheckSender,
                _ => TransferAction::Fail(TransactionDbError::DBError),
            },
            TransferAction::CheckSender => match reply {
                StoreReply::Exists(true) => TransferAction::CheckRecipient,
                StoreReply::Exists(false) => TransferAction::Rollback(
                    TransactionDbError::NotFoundError,
                ),
                StoreReply::Failed(_) => TransferAction::Rollback(
                    TransactionDbError::DBFilterError,
                ),
                _ => TransferAction::Rollback(TransactionDbError::UnknownError),
            },
            TransferAction::CheckRecipient => match reply {
                StoreReply::Exists(true) => TransferAction::ReadBalance,
                StoreReply::Exists(false) => TransferAction::Rollback(
                    TransactionDbError::NotFoundError,
                ),
                StoreReply::Failed(_) => TransferAction::Rollback(
                    TransactionDbError::DBFilterError,
                ),
                _ => TransferAction::Rollback(TransactionDbError::UnknownError),
            },
            TransferAction::ReadBalance => match reply {
                StoreReply::Balance(balance) => if balance < self.amount {
                    TransferAction::Rollback(TransactionDbError::InsufficientFunds)
                } else {
                    TransferAction::Debit
                },
                StoreReply::Failed(_) => TransferAction::Rollback(
                    TransactionDbError::DBFilterError,
                ),
                _ => TransferAction::Rollback(TransactionDbError::UnknownError),
            },
            TransferAction::Debit => match reply {
                StoreReply::Updated => TransferAction::Credit,
                StoreReply::Failed(_) => TransferAction::Rollback(
                    TransactionDbError::DBUpdateError,
                ),
                _ => TransferAction::Rollback(TransactionDbError::UnknownError),
            },
            TransferAction::Credit => match reply {
                StoreReply::Updated => TransferAction::Record,
                StoreReply::Failed(_) => TransferAction::Rollback(
                    TransactionDbError::DBUpdateError,
                ),
                _ => TransferAction::Rollback(TransactionDbError::UnknownError),
            },
            TransferAction::Record => match reply {
                StoreReply::Recorded => TransferAction::Commit,
                StoreReply::Failed(_) => TransferAction::Rollback(
                    TransactionDbError::DBInsertError,
                ),
                _ => TransferAction::Rollback(TransactionDbError::UnknownError),
            },
            TransferAction::Commit => match reply {
                StoreReply::Committed => TransferAction::Succeed,
                StoreReply::Failed(StoreFault::Transient) => if self.attempts < MAX_ATTEMPTS {
                    self.attempts = self.attempts + 1;
                    TransferAction::Begin
                } else {
                    TransferAction::Fail(TransactionDbError::DBInsertError)
                },
                StoreReply::Failed(StoreFault::Permanent) => TransferAction::Fail(
                    TransactionDbError::DBInsertError,
                ),
                _ => TransferAction::Rollback(TransactionDbError::UnknownError),
            },
            TransferAction::Rollback(cause) => TransferAction::Fail(cause),
            TransferAction::Succeed => TransferAction::Succeed,
            TransferAction::Fail(cause) => TransferAction::Fail(cause),
        };
        self.awaiting = action;
        action
    }
}

/// A failure for a store to suffer while it executes a transfer: the step
/// that fails, how it fails, and how many times.
#[derive(Debug, Clone, Copy, PartialEq, Eq, Structural)]
pub struct FaultPlan {
    /// The step of an attempt that fails, from `Begin` to `Commit`. With any
    /// other action nothing fails.
    pub step: TransferAction,
    /// How the step fails.
    pub fault: StoreFault,
    /// How many times the step fails before it works again.
    pub times: u8,
}

impl FaultPlan {
    /// No failure at all: a plan whose step, the commit, fails no times.
    pub fn none() -> (plan: Self)
        ensures
            plan == (FaultPlan {
                step: TransferAction::Commit,
                fault: StoreFault::Permanent,
                times: 0,
            }),
    {
        FaultPlan { step: TransferAction::Commit, fault: StoreFault::Permanent, times: 0 }
    }

    /// One failure of `step`.
    pub fn once(step: TransferAction, fault: StoreFault) -> (plan: Self)
        ensures
            plan == (FaultPlan { step, fault, times: 1 }),
    {
        FaultPlan { step, fault, times: 1 }
    }
}

impl TransferAction {
    /// Whether this is a step of an attempt, from `Begin` to `Commit`.
    pub open spec fn is_step(self) -> bool {
        !(self is Rollback || self is Succeed || self is Fail)
    }

    /// The error that a transfer ends with when this step fails.
    pub open spec fn failure(self) -> TransactionDbError {
        match self {
            TransferAction::Begin => TransactionDbError::DBError,
            TransferAction::CheckSender
            | TransferAction::CheckRecipient
            | TransferAction::ReadBalance => TransactionDbError::DBFilterError,
            TransferAction::Debit | TransferAction::Credit => TransactionDbError::DBUpdateError,
            TransferAction::Record | TransferAction::Commit => TransactionDbError::DBInsertError,
            TransferAction::Rollback(cause) => cause,
            TransferAction::Succeed => TransactionDbError::UnknownError,
            TransferAction::Fail(cause) => cause,
        }
    }
}

impl Tables {
    /// Whether an attempt at a transfer gets as far as `step`, when no step
    /// before it fails: every check before the step passes.
    pub open spec fn reaches(self, new: NewTransaction, step: TransferAction) -> bool {
        let both = self.has_user(new.sender_id@) && self.has_user(new.recipient_id@);
        let funded = both && self.balance_of(new.sender_id@) >= new.amount_in_rs;
        new.amount_in_rs > 0 && match step {
            TransferAction::Begin => true,
            TransferAction::CheckSender => true,
            TransferAction::CheckRecipient => self.has_user(new.sender_id@),
            TransferAction::ReadBalance => both,
            TransferAction::Debit => funded,
            TransferAction::Credit => funded,
            TransferAction::Record => funded && self.debited(new)[self.user_index(
                new.recipient_id@,
            )].balance_in_rs + new.amount_in_rs <= i64::MAX,
            TransferAction::Commit => self.transfer_refusal(new) is None,
            _ => false,
        }
    }

    /// How a transfer ends in a store that suffers the failures of `plan`:
    /// with an error, or applied. Where the planned step is reached, its
    /// failure is the transfer's, but for a commit that fails transiently
    /// fewer times than there are attempts. Where it is not reached, the
    /// transfer ends as without failures.
    pub open spec fn outcome_under(self, new: NewTransaction, plan: FaultPlan) -> Option<
        TransactionDbError,
    > {
        if plan.times > 0 && self.reaches(new, plan.step) {
            if plan.step == TransferAction::Commit && plan.fault == StoreFault::Transient
                && plan.times < MAX_ATTEMPTS {
                None
            } else {
                Some(plan.step.failure())
            }
        } else {
            self.transfer_refusal(new)
        }
    }
}

/// The engine asks for the commit only when the ledger has confirmed the
/// record, asks for each earlier write only when the step before it was
/// confirmed, and reports success only when the store has confirmed the
/// commit.
pub proof fn lemma_steps_are_confirmed(
    awaiting: TransferAction,
    amount: i64,
    attempts: u8,
    reply: StoreReply,
)
    ensures
        ({
            let next = next_action(awaiting, amount, attempts, reply);
            &&& next == TransferAction::Succeed ==> awaiting == TransferAction::Succeed || (awaiting
                == TransferAction::Commit && reply == StoreReply::Committed)
            &&& next == TransferAction::Commit ==> awaiting == TransferAction::Record && reply
                == StoreReply::Recorded
            &&& next == TransferAction::Record ==> awaiting == TransferAction::Credit && reply
                == StoreReply::Updated
            &&& next == TransferAction::Credit ==> awaiting == TransferAction::Debit && reply
                == StoreReply::Updated
            &&& next == TransferAction::Debit ==> awaiting == TransferAction::ReadBalance && (
            reply matches StoreReply::Balance(balance) && balance >= amount)
        }),
{
}

/// A step that the store reports as failed is never followed by a write or a
/// commit, nor by success: the engine rolls back, gives up, or, after a
/// commit that failed transiently, starts over with a new transaction.
pub proof fn lemma_failure_never_commits(
    awaiting: TransferAction,
    amount: i64,
    attempts: u8,
    fault: StoreFault,
)
    requires
        !awaiting.is_final(),
    ensures
        ({
            let next = next_action(awaiting, amount, attempts, StoreReply::Failed(fault));
            &&& next is Rollback || next is Fail || next == TransferAction::Begin
            &&& next == TransferAction::Begin ==> awaiting == TransferAction::Commit && fault
                == StoreFault::Transient && attempts < MAX_ATTEMPTS
        }),
{
}

/// A balance below the amount ends the attempt with `InsufficientFunds`
/// before anything was written, and an absent account with `NotFoundError`.
pub proof fn lemma_checks_precede_writes(amount: i64, attempts: u8, balance: i64)
    ensures
        balance < amount ==> next_action(
            TransferAction::ReadBalance,
            amount,
            attempts,
            StoreReply::Balance(balance),
        ) == TransferAction::Rollback(TransactionDbError::InsufficientFunds),
        next_action(TransferAction::CheckSender, amount, attempts, StoreReply::Exists(false))
            == TransferAction::Rollback(TransactionDbError::NotFoundError),
        next_action(TransferAction::CheckRecipient, amount, attempts, StoreReply::Exists(false))
            == TransferAction::Rollback(TransactionDbError::NotFoundError),
{
}

} // verus!
