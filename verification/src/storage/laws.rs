use vstd::prelude::*;

use crate::error::TransactionDbError;
use crate::storage::db::lemma_transfer_keeps_wf;
use crate::storage::tables::{lemma_sum_update, lemma_user_index, sum_balances, Tables};
use crate::storage::transfer::{FaultPlan, StoreFault, TransferAction, MAX_ATTEMPTS};
use crate::storage::types::NewTransaction;

verus! {

/// The tables after a run of transfer requests, taken in their order.
pub open spec fn after_transfers(tables: Tables, requests: Seq<NewTransaction>) -> Tables
    decreases requests.len(),
{
    if requests.len() == 0 {
        tables
    } else {
        after_transfers(tables.after_transfer(requests[0]), requests.drop_first())
    }
}

/// The sum of the amounts of those requests of a run that are applied.
pub open spec fn amount_moved(tables: Tables, requests: Seq<NewTransaction>) -> int
    decreases requests.len(),
{
    if requests.len() == 0 {
        0
    } else {
        let first = if tables.transfer_refusal(requests[0]) is None {
            requests[0].amount_in_rs as int
        } else {
            0
        };
        first + amount_moved(tables.after_transfer(requests[0]), requests.drop_first())
    }
}

/// The tables before request `i` of a run.
pub open spec fn tables_before(tables: Tables, requests: Seq<NewTransaction>, i: int) -> Tables {
    after_transfers(tables, requests.take(i))
}

/// Whether a run of requests all draw on the account `sender` and are
/// otherwise in order: each names an existing recipient other than the
/// sender, a positive amount that the recipient's balance has room for, and
/// an identifier that the ledger, which has room, does not hold yet.
pub open spec fn draws_on(tables: Tables, requests: Seq<NewTransaction>, sender: Seq<char>) -> bool
    decreases requests.len(),
{
    if requests.len() == 0 {
        true
    } else {
        let first = requests[0];
        &&& first.sender_id@ == sender
        &&& tables.has_user(sender)
        &&& tables.has_user(first.recipient_id@)
        &&& first.recipient_id@ != sender
        &&& first.amount_in_rs > 0
        &&& tables.balance_of(first.recipient_id@) + first.amount_in_rs <= i64::MAX
        &&& !tables.has_transaction(first.transaction_id@)
        &&& tables.transactions.len() < i32::MAX
        &&& draws_on(tables.after_transfer(first), requests.drop_first(), sender)
    }
}

/// A transfer request leaves well-formed tables well-formed: in particular
/// no balance is negative afterwards.
pub proof fn lemma_transfer_preserves_wf(tables: Tables, new: NewTransaction)
    requires
        tables.wf(),
    ensures
        tables.after_transfer(new).wf(),
{
    if tables.transfer_refusal(new) is None {
        lemma_transfer_keeps_wf(tables, new);
    }
}

/// Conservation: a transfer request, applied or refused, leaves the sum of
/// all balances as it was.
pub proof fn lemma_transfer_conserves(tables: Tables, new: NewTransaction)
    requires
        tables.wf(),
    ensures
        tables.after_transfer(new).total_balance() == tables.total_balance(),
{
    if tables.transfer_refusal(new) is None {
        let s = tables.user_index(new.sender_id@);
        let r = tables.user_index(new.recipient_id@);
        assert(tables.user_at(new.sender_id@, s));
        assert(tables.user_at(new.recipient_id@, r));
        let debited = tables.debited(new);
        lemma_sum_update(
            tables.users,
            s,
            crate::storage::tables::with_balance(
                tables.users[s],
                tables.users[s].balance_in_rs - new.amount_in_rs,
            ),
        );
        lemma_sum_update(
            debited,
            r,
            crate::storage::tables::with_balance(
                debited[r],
                debited[r].balance_in_rs + new.amount_in_rs,
            ),
        );
    }
}

/// Conservation over a run: whatever requests are made in whatever order, the
/// sum of all balances stays what it was, the tables stay well-formed, and so
/// no balance is ever negative.
pub proof fn lemma_transfers_conserve(tables: Tables, requests: Seq<NewTransaction>)
    requires
        tables.wf(),
    ensures
        after_transfers(tables, requests).wf(),
        after_transfers(tables, requests).total_balance() == tables.total_balance(),
        forall|i: int|
            0 <= i < after_transfers(tables, requests).users.len() ==> (#[trigger] after_transfers(
                tables,
                requests,
            ).users[i]).balance_in_rs >= 0,
    decreases requests.len(),
{
    if requests.len() > 0 {
        lemma_transfer_preserves_wf(tables, requests[0]);
        lemma_transfer_conserves(tables, requests[0]);
        lemma_transfers_conserve(tables.after_transfer(requests[0]), requests.drop_first());
    }
}

/// A request for more than the sender has changes nothing, and where the
/// recipient exists it is refused with `InsufficientFunds`.
pub proof fn lemma_overdraft_is_refused(tables: Tables, new: NewTransaction)
    requires
        tables.wf(),
        tables.has_user(new.sender_id@),
        new.amount_in_rs > tables.balance_of(new.sender_id@),
    ensures
        tables.after_transfer(new) == tables,
        tables.has_user(new.recipient_id@) ==> tables.transfer_refusal(new) == Some(
            TransactionDbError::InsufficientFunds,
        ),
        !tables.has_user(new.recipient_id@) ==> tables.transfer_refusal(new) == Some(
            TransactionDbError::NotFoundError,
        ),
{
    let s = tables.user_index(new.sender_id@);
    assert(tables.user_at(new.sender_id@, s));
    assert(tables.users[s].balance_in_rs >= 0);
}

/// A transfer whose record the ledger does not take, after both balance
/// updates were staged, leaves no trace: the request fails with
/// `DBInsertError` and neither balance has changed nor has the ledger.
pub proof fn lemma_failed_record_leaves_no_trace(tables: Tables, new: NewTransaction)
    requires
        tables.wf(),
        new.amount_in_rs > 0,
        tables.has_user(new.sender_id@),
        tables.has_user(new.recipient_id@),
        tables.balance_of(new.sender_id@) >= new.amount_in_rs,
        tables.debited(new)[tables.user_index(new.recipient_id@)].balance_in_rs + new.amount_in_rs
            <= i64::MAX,
        tables.has_transaction(new.transaction_id@) || tables.transactions.len() >= i32::MAX,
    ensures
        tables.transfer_refusal(new) == Some(TransactionDbError::DBInsertError),
        tables.after_transfer(new) == tables,
{
}

/// A ledger insert that is made to fail, after both balance updates were
/// staged and before the commit, fails a transfer that would else be applied,
/// with `DBInsertError`. So does a commit that fails for good. By the
/// contract of [`crate::storage::Storage::execute`] nothing has changed then.
pub proof fn lemma_failed_insert_fails_transfer(
    tables: Tables,
    new: NewTransaction,
    plan: FaultPlan,
)
    requires
        tables.transfer_refusal(new) is None,
        plan.times > 0,
        plan.step == TransferAction::Record || (plan.step == TransferAction::Commit && plan.fault
            == StoreFault::Permanent),
    ensures
        tables.outcome_under(new, plan) == Some(TransactionDbError::DBInsertError),
{
    let s = tables.user_index(new.sender_id@);
    assert(tables.user_at(new.sender_id@, s));
}

/// No failure of the store makes a transfer succeed that is refused without
/// it, and without failures a transfer ends as it is refused or applied.
pub proof fn lemma_failures_never_apply(tables: Tables, new: NewTransaction, plan: FaultPlan)
    ensures
        tables.transfer_refusal(new) is Some ==> tables.outcome_under(new, plan) is Some,
        plan.times == 0 ==> tables.outcome_under(new, plan) == tables.transfer_refusal(new),
{
}

/// A commit that fails transiently is tried again: the transfer is applied
/// after all if the commit fails fewer times than there are attempts, and
/// fails with `DBInsertError` if not.
pub proof fn lemma_transient_commit_is_retried(tables: Tables, new: NewTransaction, plan: FaultPlan)
    requires
        tables.transfer_refusal(new) is None,
        plan.step == TransferAction::Commit,
        plan.fault == StoreFault::Transient,
    ensures
        plan.times < MAX_ATTEMPTS ==> tables.outcome_under(new, plan) is None,
        plan.times >= MAX_ATTEMPTS ==> tables.outcome_under(new, plan) == Some(
            TransactionDbError::DBInsertError,
        ),
{
}

/// A refused transfer changes nothing, whatever the reason; an applied one
/// moves exactly the amount from the sender to the recipient, or leaves the
/// balance alone where the two are one account, and touches no third account.
pub proof fn lemma_transfer_moves_amount(tables: Tables, new: NewTransaction)
    requires
        tables.wf(),
    ensures
        tables.transfer_refusal(new) is Some ==> tables.after_transfer(new) == tables,
        tables.transfer_refusal(new) is None ==> {
            let after = tables.after_transfer(new);
            let s = tables.user_index(new.sender_id@);
            let r = tables.user_index(new.recipient_id@);
            &&& after.users.len() == tables.users.len()
            &&& after.transactions == tables.transactions.push(tables.transfer_row(new))
            &&& s != r ==> after.users[s].balance_in_rs == tables.users[s].balance_in_rs
                - new.amount_in_rs
            &&& s != r ==> after.users[r].balance_in_rs == tables.users[r].balance_in_rs
                + new.amount_in_rs
            &&& s == r ==> after.users[s].balance_in_rs == tables.users[s].balance_in_rs
            &&& forall|i: int|
                0 <= i < tables.users.len() && i != s && i != r ==> after.users[i]
                    == tables.users[i]
            &&& forall|i: int|
                0 <= i < tables.users.len() ==> (#[trigger] after.users[i]).user_id
                    == tables.users[i].user_id
        },
{
    if tables.transfer_refusal(new) is None {
        let s = tables.user_index(new.sender_id@);
        let r = tables.user_index(new.recipient_id@);
        assert(tables.user_at(new.sender_id@, s));
        assert(tables.user_at(new.recipient_id@, r));
        assert(tables.users[s].balance_in_rs >= 0);
        assert(tables.users[r].balance_in_rs >= 0);
    }
}

/// Rows are never removed and ledger rows never change: after any run of
/// transfer requests the ledger begins with the rows it held before, and
/// every account is still there under its identifier.
pub proof fn lemma_rows_are_kept(tables: Tables, requests: Seq<NewTransaction>)
    requires
        tables.wf(),
    ensures
        after_transfers(tables, requests).users.len() == tables.users.len(),
        forall|i: int|
            0 <= i < tables.users.len() ==> (#[trigger] after_transfers(
                tables,
                requests,
            ).users[i]).user_id == tables.users[i].user_id,
        tables.transactions.len() <= after_transfers(tables, requests).transactions.len()
            <= tables.transactions.len() + requests.len(),
        forall|i: int|
            0 <= i < tables.transactions.len() ==> (#[trigger] after_transfers(
                tables,
                requests,
            ).transactions[i]) == tables.transactions[i],
    decreases requests.len(),
{
    if requests.len() > 0 {
        let next = tables.after_transfer(requests[0]);
        lemma_transfer_preserves_wf(tables, requests[0]);
        lemma_transfer_moves_amount(tables, requests[0]);
        lemma_rows_are_kept(next, requests.drop_first());
        let end = after_transfers(tables, requests);
        assert forall|i: int| 0 <= i < tables.users.len() implies (#[trigger] end.users[i]).user_id
            == tables.users[i].user_id by {
            assert(next.users[i].user_id == tables.users[i].user_id);
        }
        assert forall|i: int| 0 <= i < tables.transactions.len() implies (
        #[trigger] end.transactions[i]) == tables.transactions[i] by {
            assert(next.transactions[i] == tables.transactions[i]);
        }
    }
}

/// Contention: when a run of requests all draw on one account, each request
/// is applied exactly if its amount fits the balance that the requests
/// before it have left, every other one is refused with `InsufficientFunds`,
/// and in the end the account holds what it held less the amounts of the
/// requests applied.
pub proof fn lemma_contention(tables: Tables, requests: Seq<NewTransaction>, sender: Seq<char>)
    requires
        tables.wf(),
        tables.has_user(sender),
        draws_on(tables, requests, sender),
    ensures
        after_transfers(tables, requests).has_user(sender),
        after_transfers(tables, requests).balance_of(sender) == tables.balance_of(sender)
            - amount_moved(tables, requests),
        after_transfers(tables, requests).balance_of(sender) >= 0,
        forall|i: int|
            0 <= i < requests.len() ==> {
                let before = #[trigger] tables_before(tables, requests, i);
                let refusal = before.transfer_refusal(requests[i]);
                &&& refusal is None <==> requests[i].amount_in_rs <= before.balance_of(sender)
                &&& refusal is Some ==> refusal == Some(TransactionDbError::InsufficientFunds)
            },
    decreases requests.len(),
{
    let s = tables.user_index(sender);
    assert(tables.user_at(sender, s));
    assert(tables.users[s].balance_in_rs >= 0);
    if requests.len() == 0 {
        assert forall|i: int| 0 <= i < requests.len() implies {
            let before = #[trigger] tables_before(tables, requests, i);
            let refusal = before.transfer_refusal(requests[i]);
            &&& refusal is None <==> requests[i].amount_in_rs <= before.balance_of(sender)
            &&& refusal is Some ==> refusal == Some(TransactionDbError::InsufficientFunds)
        } by {}
    } else {
        let first = requests[0];
        let rest = requests.drop_first();
        let next = tables.after_transfer(first);
        lemma_first_draw(tables, first, sender);
        lemma_transfer_preserves_wf(tables, first);
        lemma_contention(next, rest, sender);
        assert forall|i: int| 0 <= i < requests.len() implies {
            let before = #[trigger] tables_before(tables, requests, i);
            let refusal = before.transfer_refusal(requests[i]);
            &&& refusal is None <==> requests[i].amount_in_rs <= before.balance_of(sender)
            &&& refusal is Some ==> refusal == Some(TransactionDbError::InsufficientFunds)
        } by {
            if i == 0 {
                assert(requests.take(0) =~= Seq::empty());
                assert(tables_before(tables, requests, 0) == tables);
            } else {
                assert(requests.take(i).drop_first() =~= rest.take(i - 1));
                assert(requests.take(i)[0] == first);
                assert(tables_before(tables, requests, i) == tables_before(next, rest, i - 1));
                assert(requests[i] == rest[i - 1]);
            }
        }
    }
}

/// The first request of a run that draws on `sender`: it is applied exactly
/// if it fits the balance, else refused for want of funds, and the sender
/// holds afterwards what it held less what was moved.
proof fn lemma_first_draw(tables: Tables, first: NewTransaction, sender: Seq<char>)
    requires
        tables.wf(),
        tables.has_user(sender),
        first.sender_id@ == sender,
        tables.has_user(first.recipient_id@),
        first.recipient_id@ != sender,
        first.amount_in_rs > 0,
        tables.balance_of(first.recipient_id@) + first.amount_in_rs <= i64::MAX,
        !tables.has_transaction(first.transaction_id@),
        tables.transactions.len() < i32::MAX,
    ensures
        tables.transfer_refusal(first) is None <==> first.amount_in_rs <= tables.balance_of(sender),
        tables.transfer_refusal(first) is Some ==> tables.transfer_refusal(first) == Some(
            TransactionDbError::InsufficientFunds,
        ),
        tables.after_transfer(first).has_user(sender),
        tables.after_transfer(first).balance_of(sender) == tables.balance_of(sender) - (
        if tables.transfer_refusal(first) is None {
            first.amount_in_rs as int
        } else {
            0
        }),
{
    let s = tables.user_index(sender);
    let r = tables.user_index(first.recipient_id@);
    assert(tables.user_at(sender, s));
    assert(tables.user_at(first.recipient_id@, r));
    assert(s != r);
    assert(tables.users[s].balance_in_rs >= 0);
    assert(tables.users[r].balance_in_rs >= 0);
    if tables.transfer_refusal(first) is None {
        let after = tables.after_transfer(first);
        lemma_transfer_keeps_wf(tables, first);
        assert(after.user_at(sender, s));
        lemma_user_index(after, sender, s);
    }
}

} // verus!
