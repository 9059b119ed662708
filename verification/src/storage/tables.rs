use time::PrimitiveDateTime;
use vstd::prelude::*;

use crate::storage::types::{Transaction, User, UserNew, UserUpdateInternal};

verus! {

/// The account table and the ledger table as a mathematical value: the rows of
/// each, in the order they were inserted.
pub struct Tables {
    pub users: Seq<User>,
    pub transactions: Seq<Transaction>,
}

/// The sum of the balances of some accounts.
pub open spec fn sum_balances(users: Seq<User>) -> int
    decreases users.len(),
{
    if users.len() == 0 {
        0
    } else {
        sum_balances(users.drop_last()) + users.last().balance_in_rs
    }
}

/// The account with another balance.
pub open spec fn with_balance(user: User, balance: int) -> User {
    User { balance_in_rs: balance as i64, ..user }
}

/// The accounts after `amount` was added to the balance of the one at `i`.
pub open spec fn adjusted(users: Seq<User>, i: int, amount: int) -> Seq<User> {
    users.update(i, with_balance(users[i], users[i].balance_in_rs + amount))
}

/// Whether a transfer was sent or received by the account `user_id`.
pub open spec fn involves(user_id: Seq<char>) -> spec_fn(Transaction) -> bool {
    |row: Transaction| row.sender_id@ == user_id || row.recipient_id@ == user_id
}

impl Tables {
    /// No rows at all.
    pub open spec fn empty() -> Tables {
        Tables { users: Seq::empty(), transactions: Seq::empty() }
    }

    /// Row `i` of the account table is the account `user_id`.
    pub open spec fn user_at(self, user_id: Seq<char>, i: int) -> bool {
        0 <= i < self.users.len() && self.users[i].user_id@ == user_id
    }

    /// Some account is known by `user_id`.
    pub open spec fn has_user(self, user_id: Seq<char>) -> bool {
        exists|i: int| self.user_at(user_id, i)
    }

    /// The row of the account `user_id`, where there is one.
    pub open spec fn user_index(self, user_id: Seq<char>) -> int {
        choose|i: int| self.user_at(user_id, i)
    }

    /// The account `user_id`, where there is one.
    pub open spec fn user(self, user_id: Seq<char>) -> User {
        self.users[self.user_index(user_id)]
    }

    /// Row `i` of the account table is the account with this email.
    pub open spec fn email_at(self, email: Seq<char>, i: int) -> bool {
        0 <= i < self.users.len() && self.users[i].email@ == email
    }

    /// Some account has this email.
    pub open spec fn has_email(self, email: Seq<char>) -> bool {
        exists|i: int| self.email_at(email, i)
    }

    /// The row of the account with this email, where there is one.
    pub open spec fn email_index(self, email: Seq<char>) -> int {
        choose|i: int| self.email_at(email, i)
    }

    /// Row `i` of the ledger is the transfer `transaction_id`.
    pub open spec fn transaction_at(self, transaction_id: Seq<char>, i: int) -> bool {
        0 <= i < self.transactions.len() && self.transactions[i].transaction_id@ == transaction_id
    }

    /// Some transfer is known by `transaction_id`.
    pub open spec fn has_transaction(self, transaction_id: Seq<char>) -> bool {
        exists|i: int| self.transaction_at(transaction_id, i)
    }

    /// The row of the transfer `transaction_id`, where there is one.
    pub open spec fn transaction_index(self, transaction_id: Seq<char>) -> int {
        choose|i: int| self.transaction_at(transaction_id, i)
    }

    /// What holds of the tables of every store: rows are numbered from 1 in
    /// the order of insertion, an identifier or an email names one account, an
    /// identifier names one transfer, no balance is negative, every recorded
    /// amount is positive, and both sides of a recorded transfer are accounts.
    pub open spec fn wf(self) -> bool {
        &&& self.users.len() <= i32::MAX
        &&& self.transactions.len() <= i32::MAX
        &&& forall|i: int|
            0 <= i < self.users.len() ==> {
                &&& (#[trigger] self.users[i]).id == i + 1
                &&& self.users[i].balance_in_rs >= 0
            }
        &&& forall|i: int, j: int|
            0 <= i < j < self.users.len() ==> {
                &&& (#[trigger] self.users[i]).user_id@ != (#[trigger] self.users[j]).user_id@
                &&& self.users[i].email@ != self.users[j].email@
            }
        &&& forall|i: int|
            0 <= i < self.transactions.len() ==> {
                &&& (#[trigger] self.transactions[i]).id == i + 1
                &&& self.transactions[i].amount_in_rs > 0
                &&& self.has_user(self.transactions[i].sender_id@)
                &&& self.has_user(self.transactions[i].recipient_id@)
            }
        &&& forall|i: int, j: int|
            0 <= i < j < self.transactions.len() ==> (
            #[trigger] self.transactions[i]).transaction_id@ != (
            #[trigger] self.transactions[j]).transaction_id@
    }

    /// The transfers that the account `user_id` sent or received, in the
    /// order of the ledger.
    pub open spec fn transactions_of(self, user_id: Seq<char>) -> Seq<Transaction> {
        self.transactions.filter(involves(user_id))
    }

    /// Of the transfers of the account `user_id`, the `limit` that come
    /// after the first `offset`, or as many as there are.
    pub open spec fn page_of(self, user_id: Seq<char>, offset: int, limit: int) -> Seq<
        Transaction,
    > {
        let all = self.transactions_of(user_id);
        if offset >= all.len() {
            Seq::empty()
        } else if offset + limit >= all.len() {
            all.subrange(offset, all.len() as int)
        } else {
            all.subrange(offset, offset + limit)
        }
    }

    /// The sum of all balances.
    pub open spec fn total_balance(self) -> int {
        sum_balances(self.users)
    }

    /// The balance of the account `user_id`, where there is one.
    pub open spec fn balance_of(self, user_id: Seq<char>) -> int {
        self.user(user_id).balance_in_rs as int
    }

    /// The row a new account becomes.
    pub open spec fn user_row(self, new: UserNew, moment: PrimitiveDateTime) -> User {
        User {
            id: (self.users.len() + 1) as i32,
            user_id: new.user_id,
            email: new.email,
            name: new.name,
            password: new.password,
            balance_in_rs: new.balance_in_rs,
            created_at: moment,
            last_modified_at: moment,
        }
    }

    /// Whether the account table takes a new account: its identifier and its
    /// email are free, its balance is not negative, and a row number is left.
    pub open spec fn accepts_user(self, new: UserNew) -> bool {
        &&& !self.has_user(new.user_id@)
        &&& !self.has_email(new.email@)
        &&& new.balance_in_rs >= 0
        &&& self.users.len() < i32::MAX
    }

    /// The tables after a new account was inserted.
    pub open spec fn with_user(self, new: UserNew, moment: PrimitiveDateTime) -> Tables {
        Tables { users: self.users.push(self.user_row(new, moment)), ..self }
    }

    /// An account after an update of some of its fields.
    pub open spec fn updated_row(user: User, update: UserUpdateInternal) -> User {
        User {
            name: match update.name {
                Some(name) => name,
                None => user.name,
            },
            balance_in_rs: match update.balance_in_rs {
                Some(balance) => balance,
                None => user.balance_in_rs,
            },
            last_modified_at: update.last_modified_at,
            ..user
        }
    }

    /// Whether an update sets no negative balance.
    pub open spec fn accepts_update(update: UserUpdateInternal) -> bool {
        update.balance_in_rs matches Some(balance) ==> balance >= 0
    }

    /// Whether `after` and `row` are what an update of the account `user_id`
    /// leaves: some row of these tables is that account, the update is
    /// accepted, `row` is that row updated and `after` holds `row` in its
    /// place.
    pub open spec fn update_yields(
        self,
        user_id: Seq<char>,
        update: UserUpdateInternal,
        row: User,
        after: Tables,
    ) -> bool {
        exists|i: int|
            {
                &&& self.user_at(user_id, i)
                &&& Self::accepts_update(update)
                &&& row == Self::updated_row(self.users[i], update)
                &&& after == (Tables { users: self.users.update(i, row), ..self })
            }
    }

    /// The tables after the account `user_id` was updated.
    pub open spec fn with_update(self, user_id: Seq<char>, update: UserUpdateInternal) -> Tables {
        let i = self.user_index(user_id);
        Tables { users: self.users.update(i, Self::updated_row(self.users[i], update)), ..self }
    }
}

/// Replacing one account changes the sum of balances by the difference of the
/// two balances.
pub proof fn lemma_sum_update(users: Seq<User>, i: int, row: User)
    requires
        0 <= i < users.len(),
    ensures
        sum_balances(users.update(i, row)) == sum_balances(users) - users[i].balance_in_rs
            + row.balance_in_rs,
    decreases users.len(),
{
    let after = users.update(i, row);
    if i == users.len() - 1 {
        assert(after.drop_last() =~= users.drop_last());
    } else {
        lemma_sum_update(users.drop_last(), i, row);
        assert(after.drop_last() =~= users.drop_last().update(i, row));
    }
}

/// A page holds at most `limit` transfers, each sent or received by the
/// account, and none where the offset is past the last.
pub proof fn lemma_page_of(tables: Tables, user_id: Seq<char>, offset: int, limit: int)
    requires
        0 <= offset,
        0 <= limit,
    ensures
        tables.page_of(user_id, offset, limit).len() <= limit,
        tables.page_of(user_id, offset, limit).len() <= tables.transactions_of(user_id).len(),
        forall|i: int|
            0 <= i < tables.page_of(user_id, offset, limit).len() ==> {
                let row = #[trigger] tables.page_of(user_id, offset, limit)[i];
                row.sender_id@ == user_id || row.recipient_id@ == user_id
            },
{
    let wanted = involves(user_id);
    let all = tables.transactions_of(user_id);
    let page = tables.page_of(user_id, offset, limit);
    assert forall|i: int| 0 <= i < page.len() implies {
        let row = #[trigger] page[i];
        row.sender_id@ == user_id || row.recipient_id@ == user_id
    } by {
        assert(offset + i < all.len());
        assert(page[i] == all[offset + i]);
        tables.transactions.lemma_filter_pred(wanted, offset + i);
    }
}

/// In well-formed tables an identifier names one row: the row that holds it is
/// the row `user_index` gives.
pub proof fn lemma_user_index(tables: Tables, user_id: Seq<char>, i: int)
    requires
        tables.wf(),
        tables.user_at(user_id, i),
    ensures
        tables.has_user(user_id),
        tables.user_index(user_id) == i,
{
    let j = tables.user_index(user_id);
    assert(tables.user_at(user_id, j));
    if i < j {
        assert(tables.users[i].user_id@ != tables.users[j].user_id@);
    }
    if j < i {
        assert(tables.users[j].user_id@ != tables.users[i].user_id@);
    }
}

/// In well-formed tables an email names one row.
pub proof fn lemma_email_index(tables: Tables, email: Seq<char>, i: int)
    requires
        tables.wf(),
        tables.email_at(email, i),
    ensures
        tables.has_email(email),
        tables.email_index(email) == i,
{
    let j = tables.email_index(email);
    assert(tables.email_at(email, j));
    if i < j {
        assert(tables.users[i].email@ != tables.users[j].email@);
    }
    if j < i {
        assert(tables.users[j].email@ != tables.users[i].email@);
    }
}

/// In well-formed tables an identifier names one transfer.
pub proof fn lemma_transaction_index(tables: Tables, transaction_id: Seq<char>, i: int)
    requires
        tables.wf(),
        tables.transaction_at(transaction_id, i),
    ensures
        tables.has_transaction(transaction_id),
        tables.transaction_index(transaction_id) == i,
{
    let j = tables.transaction_index(transaction_id);
    assert(tables.transaction_at(transaction_id, j));
    if i < j {
        assert(tables.transactions[i].transaction_id@ != tables.transactions[j].transaction_id@);
    }
    if j < i {
        assert(tables.transactions[j].transaction_id@ != tables.transactions[i].transaction_id@);
    }
}

} // verus!
