use vstd::prelude::*;

use crate::storage::tables::Tables;
use crate::storage::types::{NewTransaction, Transaction, User, UserNew, UserUpdateInternal};

pub mod caching;
pub mod db;
pub mod laws;
pub mod tables;
pub mod transfer;
pub mod transformers;
pub mod types;

verus! {

/// The account store and the ledger store: the rows of both tables, held in
/// memory. Every store is well-formed, see [`Tables::wf`].
pub struct Storage {
    users: Vec<User>,
    transactions: Vec<Transaction>,
}

impl View for Storage {
    type V = Tables;

    closed spec fn view(&self) -> Tables {
        Tables { users: self.users@, transactions: self.transactions@ }
    }
}

impl Storage {
    /// What holds of every store: its tables are well-formed.
    #[verifier::type_invariant]
    pub closed spec fn well_formed(&self) -> bool {
        self@.wf()
    }

    /// A store without rows.
    pub fn new() -> (storage: Self)
        ensures
            storage@ == Tables::empty(),
            storage@.wf(),
    {
        let storage = Storage { users: Vec::new(), transactions: Vec::new() };
        assert(storage@.users =~= Seq::empty() && storage@.transactions =~= Seq::empty());
        storage
    }

    /// Moves the rows out and leaves the store empty.
    pub(crate) fn take_tables(&mut self) -> (rows: (Vec<User>, Vec<Transaction>))
        ensures
            old(self)@.wf(),
            rows.0@ == old(self)@.users,
            rows.1@ == old(self)@.transactions,
            final(self)@ == Tables::empty(),
    {
        proof {
            use_type_invariant(&*self);
        }
        let mut taken = Storage::new();
        core::mem::swap(self, &mut taken);
        let Storage { users, transactions } = taken;
        (users, transactions)
    }

    /// Makes these rows the rows of the store.
    pub(crate) fn restore(&mut self, users: Vec<User>, transactions: Vec<Transaction>)
        requires
            (Tables { users: users@, transactions: transactions@ }).wf(),
        ensures
            final(self)@ == (Tables { users: users@, transactions: transactions@ }),
    {
        *self = Storage { users, transactions };
    }

    /// The number of accounts.
    pub fn user_count(&self) -> (count: usize)
        ensures
            count == self@.users.len(),
            self@.wf(),
    {
        proof {
            use_type_invariant(self);
        }
        self.users.len()
    }

    /// The number of transfers in the ledger.
    pub fn transaction_count(&self) -> (count: usize)
        ensures
            count == self@.transactions.len(),
            self@.wf(),
    {
        proof {
            use_type_invariant(self);
        }
        self.transactions.len()
    }
}

/// Which key and which value a store's cache has for the rows of `Table`.
pub trait Cacheable<Table> {
    /// The key type for the cache.
    type Key: std::hash::Hash + Eq + PartialEq + Send + Sync + 'static;

    /// The value type for the cache.
    type Value: Clone + Send + Sync + 'static;
}

impl Cacheable<User> for Storage {
    type Key = String;

    type Value = User;
}

impl Cacheable<Transaction> for Storage {
    type Key = String;

    type Value = Transaction;
}

/// The account store.
///
/// An implementation answers from its tables, `self@`. What it answers with
/// `Ok` is what the tables hold, and a write that fails changes nothing.
/// When it fails, and with which error, is for the implementation to say: it
/// does so in the `_failure` functions, and each method fails exactly as its
/// function says.
pub trait UserInterface: View<V = Tables> {
    /// Error type.
    type Error;

    /// Why the store does not find the account `user_id`, if it does not.
    spec fn user_lookup_failure(&self, user_id: Seq<char>) -> Option<Self::Error>;

    /// Why the store does not find the account with this email, if it does
    /// not.
    spec fn email_lookup_failure(&self, email: Seq<char>) -> Option<Self::Error>;

    /// Why the store does not insert the account, if it does not.
    spec fn create_user_failure(&self, user: UserNew) -> Option<Self::Error>;

    /// Why the store does not update the account `user_id`, if it does not.
    spec fn update_user_failure(&self, user_id: Seq<char>, user: UserUpdateInternal) -> Option<
        Self::Error,
    >;

    /// The account known by `user_id`.
    fn get_user_by_user_id(&self, user_id: &str) -> (found: Result<User, Self::Error>)
        ensures
            match found {
                Ok(user) => {
                    &&& self.user_lookup_failure(user_id@) is None
                    &&& exists|i: int| self@.user_at(user_id@, i) && user == self@.users[i]
                },
                Err(error) => self.user_lookup_failure(user_id@) == Some(error),
            },
    ;

    /// The account with this email.
    fn get_user_by_email(&self, email: &str) -> (found: Result<User, Self::Error>)
        ensures
            match found {
                Ok(user) => {
                    &&& self.email_lookup_failure(email@) is None
                    &&& exists|i: int| self@.email_at(email@, i) && user == self@.users[i]
                },
                Err(error) => self.email_lookup_failure(email@) == Some(error),
            },
    ;

    /// Inserts an account and gives its row.
    fn create_user(&mut self, user: UserNew) -> (created: Result<User, Self::Error>)
        ensures
            match created {
                Ok(row) => {
                    &&& old(self).create_user_failure(user) is None
                    &&& old(self)@.accepts_user(user)
                    &&& row == old(self)@.user_row(user, row.created_at)
                    &&& final(self)@ == old(self)@.with_user(user, row.created_at)
                },
                Err(error) => {
                    &&& old(self).create_user_failure(user) == Some(error)
                    &&& final(self)@ == old(self)@
                },
            },
    ;

    /// Sets some fields of the account `user_id` and gives its row.
    fn update_user(&mut self, user_id: &str, user: UserUpdateInternal) -> (updated: Result<
        User,
        Self::Error,
    >)
        ensures
            match updated {
                Ok(row) => {
                    &&& old(self).update_user_failure(user_id@, user) is None
                    &&& old(self)@.update_yields(user_id@, user, row, final(self)@)
                },
                Err(error) => {
                    &&& old(self).update_user_failure(user_id@, user) == Some(error)
                    &&& final(self)@ == old(self)@
                },
            },
    ;
}

/// The ledger store and the transfer engine.
///
/// As with [`UserInterface`], what is answered with `Ok` is what the tables
/// hold, and each method fails exactly as its `_failure` function says. A
/// transfer is applied whole or not at all.
pub trait TransactionInterface: View<V = Tables> {
    /// Error type.
    type Error;

    /// Why the store does not find the transfer `transaction_id`, if it does
    /// not.
    spec fn transaction_lookup_failure(&self, transaction_id: Seq<char>) -> Option<Self::Error>;

    /// Why the store does not list the transfers of the account `user_id`,
    /// if it does not.
    spec fn list_failure(&self, user_id: Seq<char>, offset: u64, limit: u64) -> Option<
        Self::Error,
    >;

    /// Why the store does not apply the transfer, if it does not.
    spec fn transfer_failure(&self, transaction: NewTransaction) -> Option<Self::Error>;

    /// The transfer known by `transaction_id`.
    fn get_transaction_by_id(&self, transaction_id: &str) -> (found: Result<
        Transaction,
        Self::Error,
    >)
        ensures
            match found {
                Ok(row) => {
                    &&& self.transaction_lookup_failure(transaction_id@) is None
                    &&& exists|i: int|
                        self@.transaction_at(transaction_id@, i) && row == self@.transactions[i]
                },
                Err(error) => self.transaction_lookup_failure(transaction_id@) == Some(error),
            },
    ;

    /// A page of the transfers that the account `user_id` sent or received,
    /// in the order of the ledger: those after the first `offset`, at most
    /// `limit` of them. With it comes the number of all its transfers.
    fn list_transactions(&self, user_id: &str, offset: u64, limit: u64) -> (listed: Result<
        (Vec<Transaction>, u64),
        Self::Error,
    >)
        ensures
            match listed {
                Ok(page) => {
                    &&& self.list_failure(user_id@, offset, limit) is None
                    &&& page.0@ == self@.page_of(user_id@, offset as int, limit as int)
                    &&& page.1 == self@.transactions_of(user_id@).len()
                },
                Err(error) => self.list_failure(user_id@, offset, limit) == Some(error),
            },
    ;

    /// Moves the amount from the sender to the recipient and records the
    /// transfer, as one unit.
    fn create_transaction(&mut self, transaction: NewTransaction) -> (created: Result<
        Transaction,
        Self::Error,
    >)
        ensures
            match created {
                Ok(row) => {
                    &&& old(self).transfer_failure(transaction) is None
                    &&& old(self)@.transfer_refusal(transaction) is None
                    &&& row == old(self)@.transfer_row(transaction)
                    &&& final(self)@ == old(self)@.transfer_applied(transaction)
                },
                Err(error) => {
                    &&& old(self).transfer_failure(transaction) == Some(error)
                    &&& final(self)@ == old(self)@
                },
            },
    ;
}

} // verus!
