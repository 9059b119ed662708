use vstd::prelude::*;

use crate::error::{TransactionDbError, UserDbError};
use crate::storage::laws::lemma_transfer_conserves;
use crate::storage::tables::{involves, lemma_email_index, lemma_transaction_index, lemma_user_index, Tables};
use crate::storage::transfer::{
    FaultPlan, StoreFault, StoreReply, TransferAction, TransferMachine, MAX_ATTEMPTS,
};
use crate::storage::types::{
    NewTransaction, Transaction, TransactionStatus, User, UserNew, UserUpdateInternal,
};
use crate::storage::{Storage, TransactionInterface, UserInterface};
use crate::utils::datetime::now;
use crate::utils::text::str_eq;

verus! {

/// The first row that is the account `user_id`.
pub(crate) fn find_user(users: &Vec<User>, user_id: &str) -> (found: Option<usize>)
    ensures
        match found {
            Some(i) => i < users.len() && users@[i as int].user_id@ == user_id@,
            None => forall|k: int| 0 <= k < users.len() ==> users@[k].user_id@ != user_id@,
        },
{
    let mut i: usize = 0;
    while i < users.len()
        invariant
            i <= users.len(),
            forall|k: int| 0 <= k < i ==> users@[k].user_id@ != user_id@,
        decreases users.len() - i,
    {
        if str_eq(users[i].user_id.as_str(), user_id) {
            return Some(i);
        }
        i = i + 1;
    }
    None
}

/// The first row that is the account with this email.
pub(crate) fn find_email(users: &Vec<User>, email: &str) -> (found: Option<usize>)
    ensures
        match found {
            Some(i) => i < users.len() && users@[i as int].email@ == email@,
            None => forall|k: int| 0 <= k < users.len() ==> users@[k].email@ != email@,
        },
{
    let mut i: usize = 0;
    while i < users.len()
        invariant
            i <= users.len(),
            forall|k: int| 0 <= k < i ==> users@[k].email@ != email@,
        decreases users.len() - i,
    {
        if str_eq(users[i].email.as_str(), email) {
            return Some(i);
        }
        i = i + 1;
    }
    None
}

/// The first row that is the transfer `transaction_id`.
pub(crate) fn find_transaction(transactions: &Vec<Transaction>, transaction_id: &str) -> (found:
    Option<usize>)
    ensures
        match found {
            Some(i) => i < transactions.len() && transactions@[i as int].transaction_id@
                == transaction_id@,
            None => forall|k: int|
                0 <= k < transactions.len() ==> transactions@[k].transaction_id@
                    != transaction_id@,
        },
{
    let mut i: usize = 0;
    while i < transactions.len()
        invariant
            i <= transactions.len(),
            forall|k: int| 0 <= k < i ==> transactions@[k].transaction_id@ != transaction_id@,
        decreases transactions.len() - i,
    {
        if str_eq(transactions[i].transaction_id.as_str(), transaction_id) {
            return Some(i);
        }
        i = i + 1;
    }
    None
}

impl Tables {
    /// Why the account table refuses a new account, if it does: its email is
    /// taken, or else its identifier is taken, its balance is negative or no
    /// row number is left.
    pub open spec fn user_refusal(self, new: UserNew) -> Option<UserDbError> {
        if self.has_email(new.email@) {
            Some(UserDbError::DuplicateEmail)
        } else if !self.accepts_user(new) {
            Some(UserDbError::DBInsertError)
        } else {
            None
        }
    }

    /// Why an update of the account `user_id` is refused, if it is: there is
    /// no such account, or else the update sets a negative balance.
    pub open spec fn update_refusal(self, user_id: Seq<char>, update: UserUpdateInternal) -> Option<
        UserDbError,
    > {
        if !self.has_user(user_id) {
            Some(UserDbError::NotFoundError)
        } else if !Self::accepts_update(update) {
            Some(UserDbError::DBUpdateError)
        } else {
            None
        }
    }
}

impl UserInterface for Storage {
    type Error = UserDbError;

    /// A lookup fails only where there is no such account.
    open spec fn user_lookup_failure(&self, user_id: Seq<char>) -> Option<UserDbError> {
        if self@.has_user(user_id) {
            None
        } else {
            Some(UserDbError::NotFoundError)
        }
    }

    /// A lookup fails only where no account has the email.
    open spec fn email_lookup_failure(&self, email: Seq<char>) -> Option<UserDbError> {
        if self@.has_email(email) {
            None
        } else {
            Some(UserDbError::NotFoundError)
        }
    }

    /// An insert fails as [`Tables::user_refusal`] says.
    open spec fn create_user_failure(&self, user: UserNew) -> Option<UserDbError> {
        self@.user_refusal(user)
    }

    /// An update fails as [`Tables::update_refusal`] says.
    open spec fn update_user_failure(&self, user_id: Seq<char>, user: UserUpdateInternal) -> Option<
        UserDbError,
    > {
        self@.update_refusal(user_id, user)
    }

    /// The account known by `user_id`, or `NotFoundError` where there is none.
    fn get_user_by_user_id(&self, user_id: &str) -> (found: Result<User, UserDbError>)
        ensures
            self@.wf(),
            match found {
                Ok(user) => self@.has_user(user_id@) && user == self@.user(user_id@),
                Err(error) => !self@.has_user(user_id@) && error == UserDbError::NotFoundError,
            },
    {
        proof {
            use_type_invariant(self);
        }
        match find_user(&self.users, user_id) {
            Some(i) => {
                proof {
                    lemma_user_index(self@, user_id@, i as int);
                }
                Ok(self.users[i].clone())
            },
            None => Err(UserDbError::NotFoundError),
        }
    }

    /// The account with this email, or `NotFoundError` where there is none.
    fn get_user_by_email(&self, email: &str) -> (found: Result<User, UserDbError>)
        ensures
            self@.wf(),
            match found {
                Ok(user) => self@.has_email(email@) && user == self@.users[self@.email_index(
                    email@,
                )],
                Err(error) => !self@.has_email(email@) && error == UserDbError::NotFoundError,
            },
    {
        proof {
            use_type_invariant(self);
        }
        match find_email(&self.users, email) {
            Some(i) => {
                proof {
                    lemma_email_index(self@, email@, i as int);
                }
                Ok(self.users[i].clone())
            },
            None => Err(UserDbError::NotFoundError),
        }
    }

    /// Inserts an account, numbered by the table and stamped with the current
    /// time, unless the table refuses it.
    fn create_user(&mut self, user: UserNew) -> (created: Result<User, UserDbError>)
        ensures
            final(self)@.wf(),
            match created {
                Ok(row) => old(self)@.user_refusal(user) is None,
                Err(error) => old(self)@.user_refusal(user) == Some(error),
            },
    {
        proof {
            use_type_invariant(&*self);
        }
        if let Some(i) = find_email(&self.users, user.email.as_str()) {
            assert(self@.email_at(user.email@, i as int));
            return Err(UserDbError::DuplicateEmail);
        }
        if let Some(i) = find_user(&self.users, user.user_id.as_str()) {
            assert(self@.user_at(user.user_id@, i as int));
            return Err(UserDbError::DBInsertError);
        }
        if user.balance_in_rs < 0 || self.users.len() >= i32::MAX as usize {
            return Err(UserDbError::DBInsertError);
        }
        let moment = now();
        let ghost before = self@;
        let row = User {
            id: (self.users.len() + 1) as i32,
            user_id: user.user_id,
            email: user.email,
            name: user.name,
            password: user.password,
            balance_in_rs: user.balance_in_rs,
            created_at: moment,
            last_modified_at: moment,
        };
        let answer = row.clone();
        let (mut users, transactions) = self.take_tables();
        users.push(row);
        proof {
            let after = before.with_user(user, moment);
            assert(users@ =~= after.users);
            assert forall|i: int| 0 <= i < after.transactions.len() implies after.has_user(
                after.transactions[i].sender_id@,
            ) && after.has_user(after.transactions[i].recipient_id@) by {
                let s = before.user_index(before.transactions[i].sender_id@);
                let r = before.user_index(before.transactions[i].recipient_id@);
                assert(before.has_user(before.transactions[i].sender_id@));
                assert(before.has_user(before.transactions[i].recipient_id@));
                assert(after.user_at(after.transactions[i].sender_id@, s));
                assert(after.user_at(after.transactions[i].recipient_id@, r));
            }
            assert forall|i: int, j: int| 0 <= i < j < after.users.len() implies after.users[i].user_id@
                != after.users[j].user_id@ && after.users[i].email@ != after.users[j].email@ by {
                if j == before.users.len() {
                    assert(!before.user_at(user.user_id@, i));
                    assert(!before.email_at(user.email@, i));
                }
            }
            assert(after.wf());
        }
        self.restore(users, transactions);
        Ok(answer)
    }

    /// Sets the given fields of the account `user_id`, unless there is no such
    /// account or the update sets a negative balance.
    fn update_user(&mut self, user_id: &str, user: UserUpdateInternal) -> (updated: Result<
        User,
        UserDbError,
    >)
        ensures
            final(self)@.wf(),
            match updated {
                Ok(row) => {
                    &&& old(self)@.update_refusal(user_id@, user) is None
                    &&& final(self)@ == old(self)@.with_update(user_id@, user)
                    &&& row == final(self)@.user(user_id@)
                },
                Err(error) => old(self)@.update_refusal(user_id@, user) == Some(error),
            },
    {
        proof {
            use_type_invariant(&*self);
        }
        let i = match find_user(&self.users, user_id) {
            Some(i) => i,
            None => {
                return Err(UserDbError::NotFoundError);
            },
        };
        proof {
            lemma_user_index(self@, user_id@, i as int);
        }
        if let Some(balance) = user.balance_in_rs {
            if balance < 0 {
                return Err(UserDbError::DBUpdateError);
            }
        }
        let ghost before = self@;
        let current = &self.users[i];
        let row = User {
            id: current.id,
            user_id: current.user_id.clone(),
            email: current.email.clone(),
            name: match user.name {
                Some(name) => name,
                None => current.name.clone(),
            },
            password: current.password.clone(),
            balance_in_rs: match user.balance_in_rs {
                Some(balance) => balance,
                None => current.balance_in_rs,
            },
            created_at: current.created_at,
            last_modified_at: user.last_modified_at,
        };
        let answer = row.clone();
        let (mut users, transactions) = self.take_tables();
        users.set(i, row);
        proof {
            let after = before.with_update(user_id@, user);
            assert(users@ =~= after.users);
            assert forall|k: int| 0 <= k < after.transactions.len() implies after.has_user(
                after.transactions[k].sender_id@,
            ) && after.has_user(after.transactions[k].recipient_id@) by {
                let s = before.user_index(before.transactions[k].sender_id@);
                let r = before.user_index(before.transactions[k].recipient_id@);
                assert(before.has_user(before.transactions[k].sender_id@));
                assert(before.has_user(before.transactions[k].recipient_id@));
                assert(after.user_at(after.transactions[k].sender_id@, s));
                assert(after.user_at(after.transactions[k].recipient_id@, r));
            }
            assert(after.wf());
            lemma_user_index(after, user_id@, i as int);
            assert(before.user_at(user_id@, i as int));
            assert(after =~= (Tables { users: before.users.update(i as int, answer), ..before }));
        }
        self.restore(users, transactions);
        Ok(answer)
    }
}

/// Applying a transfer that is not refused leaves well-formed tables.
pub proof fn lemma_transfer_keeps_wf(tables: Tables, new: NewTransaction)
    requires
        tables.wf(),
        tables.transfer_refusal(new) is None,
    ensures
        tables.transfer_applied(new).wf(),
{
    let after = tables.transfer_applied(new);
    let s = tables.user_index(new.sender_id@);
    let r = tables.user_index(new.recipient_id@);
    assert(tables.user_at(new.sender_id@, s));
    assert(tables.user_at(new.recipient_id@, r));
    let debited = tables.debited(new);
    assert(after.users.len() == tables.users.len());
    assert forall|i: int| 0 <= i < after.users.len() implies {
        &&& (#[trigger] after.users[i]).id == tables.users[i].id
        &&& after.users[i].user_id == tables.users[i].user_id
        &&& after.users[i].email == tables.users[i].email
        &&& after.users[i].balance_in_rs >= 0
    } by {
        assert(tables.users[i].balance_in_rs >= 0);
        assert(debited[i].balance_in_rs >= 0);
    }
    assert forall|i: int| 0 <= i < after.transactions.len() implies {
        &&& (#[trigger] after.transactions[i]).id == i + 1
        &&& after.transactions[i].amount_in_rs > 0
        &&& after.has_user(after.transactions[i].sender_id@)
        &&& after.has_user(after.transactions[i].recipient_id@)
    } by {
        if i < tables.transactions.len() {
            let a = tables.user_index(tables.transactions[i].sender_id@);
            let b = tables.user_index(tables.transactions[i].recipient_id@);
            assert(tables.has_user(tables.transactions[i].sender_id@));
            assert(tables.has_user(tables.transactions[i].recipient_id@));
            assert(after.user_at(after.transactions[i].sender_id@, a));
            assert(after.user_at(after.transactions[i].recipient_id@, b));
        } else {
            assert(after.user_at(new.sender_id@, s));
            assert(after.user_at(new.recipient_id@, r));
        }
    }
    assert forall|i: int, j: int| 0 <= i < j < after.transactions.len() implies (
    #[trigger] after.transactions[i]).transaction_id@ != (
    #[trigger] after.transactions[j]).transaction_id@ by {
        if j == tables.transactions.len() {
            assert(!tables.transaction_at(new.transaction_id@, i));
        }
    }
    assert forall|i: int, j: int| 0 <= i < j < after.users.len() implies {
        &&& (#[trigger] after.users[i]).user_id@ != (#[trigger] after.users[j]).user_id@
        &&& after.users[i].email@ != after.users[j].email@
    } by {
        assert(tables.users[i].user_id@ != tables.users[j].user_id@);
    }
}

/// What a run of the engine against the store has reached when the engine
/// gives `action`: what the draft of the open transaction holds, what the
/// checks so far have shown of the tables, and how many of the planned
/// failures are left.
spec fn run_stands(
    tables: Tables,
    new: NewTransaction,
    plan: FaultPlan,
    action: TransferAction,
    draft: Tables,
    sender: int,
    recipient: int,
    left: u8,
    attempts: u8,
) -> bool {
    let sender_known = sender == tables.user_index(new.sender_id@);
    let recipient_known = recipient == tables.user_index(new.recipient_id@);
    let armed = plan.times > 0 && plan.step.is_step();
    &&& left <= plan.times
    &&& 1 <= attempts <= MAX_ATTEMPTS
    &&& action.is_step() ==> {
        &&& tables.reaches(new, action)
        &&& !armed ==> attempts == 1
        &&& armed && plan.step != TransferAction::Commit ==> {
            &&& attempts == 1
            &&& left == plan.times
            &&& action.rank() >= plan.step.rank()
        }
        &&& armed && plan.step == TransferAction::Commit ==> {
            &&& plan.fault == StoreFault::Permanent ==> attempts == 1 && left == plan.times
            &&& plan.fault == StoreFault::Transient ==> attempts == 1 + (plan.times - left)
        }
    }
    &&& match action {
        TransferAction::Begin => true,
        TransferAction::CheckSender => draft == tables,
        TransferAction::CheckRecipient => draft == tables && sender_known,
        TransferAction::ReadBalance => draft == tables && sender_known && recipient_known,
        TransferAction::Debit => draft == tables && sender_known && recipient_known,
        TransferAction::Credit => {
            &&& sender_known
            &&& recipient_known
            &&& draft == (Tables { users: tables.debited(new), ..tables })
        },
        TransferAction::Record => {
            &&& sender_known
            &&& recipient_known
            &&& draft == (Tables { users: tables.credited(new), ..tables })
        },
        TransferAction::Commit => draft == tables.transfer_applied(new),
        TransferAction::Rollback(cause) => tables.outcome_under(new, plan) == Some(cause),
        TransferAction::Succeed => tables.outcome_under(new, plan) is None
            && tables.transfer_refusal(new) is None,
        TransferAction::Fail(cause) => tables.outcome_under(new, plan) == Some(cause),
    }
}

impl Storage {
    /// Executes a transfer while the store suffers the failures of `plan`.
    /// The engine decides each step, and the steps are taken on a draft of the
    /// tables that replaces them at the commit. The transfer ends exactly as
    /// [`Tables::outcome_under`] says; it is applied whole where it succeeds,
    /// and where it fails nothing has changed.
    pub fn execute(&mut self, transaction: NewTransaction, plan: FaultPlan) -> (created: Result<
        Transaction,
        TransactionDbError,
    >)
        ensures
            final(self)@.wf(),
            match created {
                Ok(row) => {
                    &&& old(self)@.outcome_under(transaction, plan) is None
                    &&& old(self)@.transfer_refusal(transaction) is None
                    &&& row == old(self)@.transfer_row(transaction)
                    &&& final(self)@ == old(self)@.transfer_applied(transaction)
                },
                Err(error) => {
                    &&& old(self)@.outcome_under(transaction, plan) == Some(error)
                    &&& final(self)@ == old(self)@
                },
            },
            final(self)@.total_balance() == old(self)@.total_balance(),
    {
        proof {
            use_type_invariant(&*self);
            lemma_transfer_conserves(self@, transaction);
        }
        let ghost tables = self@;
        let mut machine = TransferMachine::start(transaction.amount_in_rs);
        let mut action = machine.awaiting;
        let mut users: Vec<User> = Vec::new();
        let mut transactions: Vec<Transaction> = Vec::new();
        let mut sender: usize = 0;
        let mut recipient: usize = 0;
        let mut left: u8 = plan.times;
        let mut recorded: Option<Transaction> = None;
        while !is_settled(action)
            invariant
                tables.wf(),
                self@ == (if action == TransferAction::Succeed {
                    tables.transfer_applied(transaction)
                } else {
                    tables
                }),
                action == TransferAction::Succeed ==> recorded == Some(
                    tables.transfer_row(transaction),
                ),
                machine.awaiting == action,
                machine.amount == transaction.amount_in_rs,
                run_stands(
                    tables,
                    transaction,
                    plan,
                    action,
                    Tables { users: users@, transactions: transactions@ },
                    sender as int,
                    recipient as int,
                    left,
                    machine.attempts,
                ),
            decreases machine.steps_left(),
        {
            let reply = if left > 0 && is_planned(action, &plan) {
                left = left - 1;
                StoreReply::Failed(plan.fault)
            } else {
                match action {
                    TransferAction::Begin => {
                        users = self.users.clone();
                        transactions = self.transactions.clone();
                        assert(users@ =~= tables.users);
                        assert(transactions@ =~= tables.transactions);
                        StoreReply::Opened
                    },
                    TransferAction::CheckSender => match find_user(
                        &users,
                        transaction.sender_id.as_str(),
                    ) {
                        Some(i) => {
                            sender = i;
                            proof {
                                lemma_user_index(tables, transaction.sender_id@, i as int);
                            }
                            StoreReply::Exists(true)
                        },
                        None => {
                            assert(!tables.has_user(transaction.sender_id@));
                            StoreReply::Exists(false)
                        },
                    },
                    TransferAction::CheckRecipient => match find_user(
                        &users,
                        transaction.recipient_id.as_str(),
                    ) {
                        Some(i) => {
                            recipient = i;
                            proof {
                                lemma_user_index(tables, transaction.recipient_id@, i as int);
                            }
                            StoreReply::Exists(true)
                        },
                        None => {
                            assert(!tables.has_user(transaction.recipient_id@));
                            StoreReply::Exists(false)
                        },
                    },
                    TransferAction::ReadBalance => StoreReply::Balance(
                        users[sender].balance_in_rs,
                    ),
                    TransferAction::Debit => {
                        let row = with_amount(&users[sender], -transaction.amount_in_rs);
                        users.set(sender, row);
                        assert(users@ =~= tables.debited(transaction));
                        StoreReply::Updated
                    },
                    TransferAction::Credit => {
                        if users[recipient].balance_in_rs > i64::MAX - transaction.amount_in_rs {
                            StoreReply::Failed(StoreFault::Permanent)
                        } else {
                            let row = with_amount(&users[recipient], transaction.amount_in_rs);
                            users.set(recipient, row);
                            assert(users@ =~= tables.credited(transaction));
                            StoreReply::Updated
                        }
                    },
                    TransferAction::Record => {
                        match find_transaction(
                            &transactions,
                            transaction.transaction_id.as_str(),
                        ) {
                            Some(i) => {
                                assert(tables.transaction_at(
                                    transaction.transaction_id@,
                                    i as int,
                                ));
                                StoreReply::Failed(StoreFault::Permanent)
                            },
                            None => {
                                if transactions.len() >= i32::MAX as usize {
                                    StoreReply::Failed(StoreFault::Permanent)
                                } else {
                                    let row = completed(
                                        &transaction,
                                        (transactions.len() + 1) as i32,
                                    );
                                    transactions.push(row);
                                    assert(!tables.has_transaction(transaction.transaction_id@));
                                    assert(transactions@ =~= tables.transfer_applied(
                                        transaction,
                                    ).transactions);
                                    StoreReply::Recorded
                                }
                            },
                        }
                    },
                    TransferAction::Commit => {
                        proof {
                            lemma_transfer_keeps_wf(tables, transaction);
                        }
                        recorded = Some(transactions[transactions.len() - 1].clone());
                        self.restore(users, transactions);
                        users = Vec::new();
                        transactions = Vec::new();
                        StoreReply::Committed
                    },
                    _ => {
                        users = Vec::new();
                        transactions = Vec::new();
                        StoreReply::RolledBack
                    },
                }
            };
            action = machine.step(reply);
        }
        proof {
            use_type_invariant(&*self);
        }
        match (action, recorded) {
            (TransferAction::Succeed, Some(row)) => Ok(row),
            (TransferAction::Fail(cause), _) => Err(cause),
            _ => Err(TransactionDbError::UnknownError),
        }
    }
}

/// Whether the plan's failure is for this action.
fn is_planned(action: TransferAction, plan: &FaultPlan) -> (planned: bool)
    ensures
        planned == (action == plan.step && action.is_step()),
{
    match (action, plan.step) {
        (TransferAction::Begin, TransferAction::Begin) => true,
        (TransferAction::CheckSender, TransferAction::CheckSender) => true,
        (TransferAction::CheckRecipient, TransferAction::CheckRecipient) => true,
        (TransferAction::ReadBalance, TransferAction::ReadBalance) => true,
        (TransferAction::Debit, TransferAction::Debit) => true,
        (TransferAction::Credit, TransferAction::Credit) => true,
        (TransferAction::Record, TransferAction::Record) => true,
        (TransferAction::Commit, TransferAction::Commit) => true,
        _ => false,
    }
}

impl TransactionInterface for Storage {
    type Error = TransactionDbError;

    /// A lookup fails only where there is no such transfer.
    open spec fn transaction_lookup_failure(&self, transaction_id: Seq<char>) -> Option<
        TransactionDbError,
    > {
        if self@.has_transaction(transaction_id) {
            None
        } else {
            Some(TransactionDbError::NotFoundError)
        }
    }

    /// Listing does not fail.
    open spec fn list_failure(&self, user_id: Seq<char>, offset: u64, limit: u64) -> Option<
        TransactionDbError,
    > {
        None
    }

    /// A transfer fails as [`Tables::transfer_refusal`] says.
    open spec fn transfer_failure(&self, transaction: NewTransaction) -> Option<
        TransactionDbError,
    > {
        self@.transfer_refusal(transaction)
    }

    /// The transfer known by `transaction_id`, or `NotFoundError` where there
    /// is none.
    fn get_transaction_by_id(&self, transaction_id: &str) -> (found: Result<
        Transaction,
        TransactionDbError,
    >)
        ensures
            self@.wf(),
            match found {
                Ok(row) => self@.has_transaction(transaction_id@) && row
                    == self@.transactions[self@.transaction_index(transaction_id@)],
                Err(error) => !self@.has_transaction(transaction_id@) && error
                    == TransactionDbError::NotFoundError,
            },
    {
        proof {
            use_type_invariant(self);
        }
        match find_transaction(&self.transactions, transaction_id) {
            Some(i) => {
                proof {
                    lemma_transaction_index(self@, transaction_id@, i as int);
                }
                Ok(self.transactions[i].clone())
            },
            None => Err(TransactionDbError::NotFoundError),
        }
    }

    /// A page of the transfers of the account `user_id`, with the number of
    /// all of them. It does not fail.
    fn list_transactions(&self, user_id: &str, offset: u64, limit: u64) -> (listed: Result<
        (Vec<Transaction>, u64),
        TransactionDbError,
    >)
        ensures
            listed is Ok,
    {
        proof {
            use_type_invariant(self);
        }
        let ghost wanted = involves(user_id@);
        let mut rows: Vec<Transaction> = Vec::new();
        let mut count: u64 = 0;
        let mut i: usize = 0;
        proof {
            reveal(Seq::filter);
            assert(self.transactions@.take(0) =~= Seq::empty());
        }
        while i < self.transactions.len()
            invariant
                i <= self.transactions.len(),
                self.transactions.len() <= i32::MAX,
                wanted == involves(user_id@),
                count == self.transactions@.take(i as int).filter(wanted).len(),
                count <= i,
                rows@ == ({
                    let all = self.transactions@.take(i as int).filter(wanted);
                    if offset >= all.len() {
                        Seq::empty()
                    } else if offset + limit >= all.len() {
                        all.subrange(offset as int, all.len() as int)
                    } else {
                        all.subrange(offset as int, offset + limit)
                    }
                }),
            decreases self.transactions.len() - i,
        {
            let row = &self.transactions[i];
            let involved = str_eq(row.sender_id.as_str(), user_id) || str_eq(
                row.recipient_id.as_str(),
                user_id,
            );
            proof {
                reveal(Seq::filter);
                let prefix = self.transactions@.take(i as int);
                let longer = self.transactions@.take(i + 1);
                assert(longer.drop_last() =~= prefix);
                assert(longer.last() == self.transactions@[i as int]);
                assert(involved == wanted(self.transactions@[i as int]));
            }
            if involved {
                if count >= offset && count - offset < limit {
                    rows.push(row.clone());
                }
                count = count + 1;
            }
            i = i + 1;
        }
        proof {
            assert(self.transactions@.take(i as int) =~= self.transactions@);
        }
        Ok((rows, count))
    }

    /// Executes a transfer. It is refused exactly as
    /// [`Tables::transfer_refusal`] says, and then nothing has changed;
    /// else it is applied whole.
    fn create_transaction(&mut self, transaction: NewTransaction) -> (created: Result<
        Transaction,
        TransactionDbError,
    >)
        ensures
            final(self)@.wf(),
            final(self)@ == old(self)@.after_transfer(transaction),
            final(self)@.total_balance() == old(self)@.total_balance(),
            created matches Err(error) ==> old(self)@.transfer_refusal(transaction) == Some(error),
    {
        self.execute(transaction, FaultPlan::none())
    }
}

/// Whether the transfer has ended.
fn is_settled(action: TransferAction) -> (settled: bool)
    ensures
        settled == action.is_final(),
{
    match action {
        TransferAction::Succeed => true,
        TransferAction::Fail(_) => true,
        _ => false,
    }
}

/// The account with `amount` added to its balance.
fn with_amount(user: &User, amount: i64) -> (row: User)
    requires
        i64::MIN <= user.balance_in_rs + amount <= i64::MAX,
    ensures
        row == crate::storage::tables::with_balance(*user, user.balance_in_rs + amount),
{
    User {
        id: user.id,
        user_id: user.user_id.clone(),
        email: user.email.clone(),
        name: user.name.clone(),
        password: user.password.clone(),
        balance_in_rs: user.balance_in_rs + amount,
        created_at: user.created_at,
        last_modified_at: user.last_modified_at,
    }
}

/// The ledger row of a request: numbered `id` and marked completed.
fn completed(new: &NewTransaction, id: i32) -> (row: Transaction)
    ensures
        row == (Transaction {
            id,
            transaction_id: new.transaction_id,
            sender_id: new.sender_id,
            recipient_id: new.recipient_id,
            amount_in_rs: new.amount_in_rs,
            description: new.description,
            created_at: new.created_at,
            status: TransactionStatus::Completed,
            updated_at: new.updated_at,
        }),
{
    Transaction {
        id,
        transaction_id: new.transaction_id.clone(),
        sender_id: new.sender_id.clone(),
        recipient_id: new.recipient_id.clone(),
        amount_in_rs: new.amount_in_rs,
        description: match &new.description {
            Some(text) => Some(text.clone()),
            None => None,
        },
        created_at: new.created_at,
        status: TransactionStatus::Completed,
        updated_at: new.updated_at,
    }
}

} // verus!
