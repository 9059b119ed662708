use time::PrimitiveDateTime;
use vstd::prelude::*;

use crate::utils;
use crate::utils::text::str_eq;

verus! {

/// Where a transfer stands.
#[derive(Debug, Clone, Copy, PartialEq, Eq, Structural)]
pub enum TransactionStatus {
    /// Requested, not yet applied.
    Pending,
    /// Applied: both balances moved and the record is in the ledger.
    Completed,
    /// Given up.
    Failed,
}

impl TransactionStatus {
    /// The name of the status as the ledger table spells it.
    pub open spec fn name_spec(self) -> Seq<char> {
        match self {
            TransactionStatus::Pending => "PENDING"@,
            TransactionStatus::Completed => "COMPLETED"@,
            TransactionStatus::Failed => "FAILED"@,
        }
    }

    /// The status that a name spells, if it spells one.
    pub open spec fn parse_spec(name: Seq<char>) -> Option<TransactionStatus> {
        if name == "PENDING"@ {
            Some(TransactionStatus::Pending)
        } else if name == "COMPLETED"@ {
            Some(TransactionStatus::Completed)
        } else if name == "FAILED"@ {
            Some(TransactionStatus::Failed)
        } else {
            None
        }
    }

    /// Reads a status as the ledger table spells it.
    pub fn parse(name: &str) -> (status: Option<TransactionStatus>)
        ensures
            status == Self::parse_spec(name@),
    {
        if str_eq(name, "PENDING") {
            Some(TransactionStatus::Pending)
        } else if str_eq(name, "COMPLETED") {
            Some(TransactionStatus::Completed)
        } else if str_eq(name, "FAILED") {
            Some(TransactionStatus::Failed)
        } else {
            None
        }
    }

    /// The name of the status as the ledger table spells it.
    pub fn as_str(&self) -> (name: &'static str)
        ensures
            name@ == self.name_spec(),
    {
        match self {
            TransactionStatus::Pending => "PENDING",
            TransactionStatus::Completed => "COMPLETED",
            TransactionStatus::Failed => "FAILED",
        }
    }
}

/// An account: the holder of a balance.
#[derive(Debug)]
pub struct User {
    /// Row number, given by the store.
    pub id: i32,
    /// The opaque identifier callers know the account by.
    pub user_id: String,
    pub email: String,
    pub name: String,
    /// The credential hash.
    pub password: String,
    /// The balance in minor units. Never negative in a store.
    pub balance_in_rs: i64,
    pub created_at: PrimitiveDateTime,
    pub last_modified_at: PrimitiveDateTime,
}

impl Clone for User {
    fn clone(&self) -> (copy: Self)
        ensures
            copy == *self,
    {
        User {
            id: self.id,
            user_id: self.user_id.clone(),
            email: self.email.clone(),
            name: self.name.clone(),
            password: self.password.clone(),
            balance_in_rs: self.balance_in_rs,
            created_at: self.created_at,
            last_modified_at: self.last_modified_at,
        }
    }
}

/// A transfer: one movement of funds, as the ledger records it.
#[derive(Debug)]
pub struct Transaction {
    /// Row number, given by the store.
    pub id: i32,
    /// The opaque identifier callers know the transfer by.
    pub transaction_id: String,
    pub sender_id: String,
    pub recipient_id: String,
    /// The amount in minor units. Positive in a store.
    pub amount_in_rs: i64,
    pub description: Option<String>,
    pub created_at: PrimitiveDateTime,
    pub status: TransactionStatus,
    pub updated_at: PrimitiveDateTime,
}

impl Clone for Transaction {
    fn clone(&self) -> (copy: Self)
        ensures
            copy == *self,
    {
        Transaction {
            id: self.id,
            transaction_id: self.transaction_id.clone(),
            sender_id: self.sender_id.clone(),
            recipient_id: self.recipient_id.clone(),
            amount_in_rs: self.amount_in_rs,
            description: match &self.description {
                Some(text) => Some(text.clone()),
                None => None,
            },
            created_at: self.created_at,
            status: self.status,
            updated_at: self.updated_at,
        }
    }
}

/// An account to be inserted.
#[derive(Debug)]
pub struct UserNew {
    pub user_id: String,
    pub email: String,
    pub name: String,
    pub password: String,
    pub balance_in_rs: i64,
}

/// A transfer to be executed.
#[derive(Debug)]
pub struct NewTransaction {
    pub transaction_id: String,
    pub sender_id: String,
    pub recipient_id: String,
    pub amount_in_rs: i64,
    pub description: Option<String>,
    pub created_at: PrimitiveDateTime,
    pub status: TransactionStatus,
    pub updated_at: PrimitiveDateTime,
}

/// The fields of an account that an update may set.
#[derive(Debug)]
pub struct UserUpdateInternal {
    pub name: Option<String>,
    pub balance_in_rs: Option<i64>,
    pub last_modified_at: PrimitiveDateTime,
}

impl UserUpdateInternal {
    /// An update of the given fields, stamped with the current time.
    pub fn new(name: Option<String>, amount_in_rs: Option<i64>) -> (update: Self)
        ensures
            update.name == name,
            update.balance_in_rs == amount_in_rs,
    {
        let last_modified_at = utils::datetime::now();
        Self { name, balance_in_rs: amount_in_rs, last_modified_at }
    }
}

/// Reading the name of a status gives the status back.
pub proof fn lemma_status_name_round_trip(status: TransactionStatus)
    ensures
        TransactionStatus::parse_spec(status.name_spec()) == Some(status),
{
    reveal_strlit("PENDING");
    reveal_strlit("COMPLETED");
    reveal_strlit("FAILED");
    assert("PENDING"@.len() == 7);
    assert("COMPLETED"@.len() == 9);
    assert("FAILED"@.len() == 6);
}

} // verus!
