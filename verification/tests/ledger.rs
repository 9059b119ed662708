use dodopayments::error::{TransactionDbError, UserDbError};
use dodopayments::storage::transfer::{FaultPlan, StoreFault, TransferAction};
use dodopayments::storage::types::{
    NewTransaction, TransactionStatus, UserNew, UserUpdateInternal,
};
use dodopayments::storage::{Storage, TransactionInterface, UserInterface};
use dodopayments::utils::datetime::now;

fn account(id: &str, balance: i64) -> UserNew {
    UserNew {
        user_id: id.to_string(),
        email: format!("{id}@example.com"),
        name: format!("holder {id}"),
        password: "hash".to_string(),
        balance_in_rs: balance,
    }
}

fn transfer(id: &str, sender: &str, recipient: &str, amount: i64) -> NewTransaction {
    NewTransaction {
        transaction_id: id.to_string(),
        sender_id: sender.to_string(),
        recipient_id: recipient.to_string(),
        amount_in_rs: amount,
        description: None,
        created_at: now(),
        status: TransactionStatus::Pending,
        updated_at: now(),
    }
}

fn store_with(accounts: &[(&str, i64)]) -> Storage {
    let mut storage = Storage::new();
    for (id, balance) in accounts {
        storage.create_user(account(id, *balance)).unwrap();
    }
    storage
}

fn balance(storage: &Storage, id: &str) -> i64 {
    storage.get_user_by_user_id(id).unwrap().balance_in_rs
}

#[test]
fn transfer_moves_the_amount_and_records_it() {
    let mut storage = store_with(&[("a", 1000), ("b", 50)]);
    let row = storage.create_transaction(transfer("t1", "a", "b", 300)).unwrap();
    assert_eq!(balance(&storage, "a"), 700);
    assert_eq!(balance(&storage, "b"), 350);
    assert_eq!(row.id, 1);
    assert_eq!(row.transaction_id, "t1");
    assert_eq!(row.sender_id, "a");
    assert_eq!(row.recipient_id, "b");
    assert_eq!(row.amount_in_rs, 300);
    assert_eq!(row.status, TransactionStatus::Completed);
    assert_eq!(storage.transaction_count(), 1);
    let stored = storage.get_transaction_by_id("t1").unwrap();
    assert_eq!(stored.amount_in_rs, 300);
    assert_eq!(stored.status, TransactionStatus::Completed);
}

#[test]
fn overdraft_after_a_transfer_is_refused() {
    let mut storage = store_with(&[("a", 1000), ("b", 0)]);
    assert!(storage.create_transaction(transfer("t1", "a", "b", 300)).is_ok());
    assert_eq!(balance(&storage, "a"), 700);
    assert_eq!(balance(&storage, "b"), 300);
    let second = storage.create_transaction(transfer("t2", "a", "b", 800));
    assert_eq!(second.unwrap_err(), TransactionDbError::InsufficientFunds);
    assert_eq!(balance(&storage, "a"), 700);
    assert_eq!(balance(&storage, "b"), 300);
    assert_eq!(storage.transaction_count(), 1);
    assert_eq!(
        storage.get_transaction_by_id("t2").unwrap_err(),
        TransactionDbError::NotFoundError
    );
}

#[test]
fn whole_balance_can_be_sent() {
    let mut storage = store_with(&[("a", 10), ("b", 0)]);
    assert!(storage.create_transaction(transfer("t1", "a", "b", 10)).is_ok());
    assert_eq!(balance(&storage, "a"), 0);
    assert_eq!(balance(&storage, "b"), 10);
    let more = storage.create_transaction(transfer("t2", "a", "b", 1));
    assert_eq!(more.unwrap_err(), TransactionDbError::InsufficientFunds);
}

#[test]
fn transfers_conserve_the_sum_of_balances() {
    let mut storage = store_with(&[("a", 500), ("b", 200), ("c", 0)]);
    let total = |s: &Storage| balance(s, "a") + balance(s, "b") + balance(s, "c");
    assert_eq!(total(&storage), 700);
    let requests = [
        ("t1", "a", "b", 120),
        ("t2", "b", "c", 320),
        ("t3", "c", "a", 1000),
        ("t4", "c", "a", 20),
        ("t5", "a", "missing", 5),
        ("t6", "b", "b", 0),
    ];
    for (id, sender, recipient, amount) in requests {
        let _ = storage.create_transaction(transfer(id, sender, recipient, amount));
        assert_eq!(total(&storage), 700);
        assert!(balance(&storage, "a") >= 0);
        assert!(balance(&storage, "b") >= 0);
        assert!(balance(&storage, "c") >= 0);
    }
    assert_eq!(balance(&storage, "a"), 400);
    assert_eq!(balance(&storage, "b"), 0);
    assert_eq!(balance(&storage, "c"), 300);
    assert_eq!(storage.transaction_count(), 3);
}

#[test]
fn absent_account_is_not_found() {
    let mut storage = store_with(&[("a", 100)]);
    let no_recipient = storage.create_transaction(transfer("t1", "a", "nobody", 10));
    assert_eq!(no_recipient.unwrap_err(), TransactionDbError::NotFoundError);
    let no_sender = storage.create_transaction(transfer("t2", "nobody", "a", 10));
    assert_eq!(no_sender.unwrap_err(), TransactionDbError::NotFoundError);
    assert_eq!(balance(&storage, "a"), 100);
    assert_eq!(storage.transaction_count(), 0);
}

#[test]
fn absent_account_is_reported_before_funds() {
    let mut storage = store_with(&[("a", 100)]);
    let refused = storage.create_transaction(transfer("t1", "a", "nobody", 1000));
    assert_eq!(refused.unwrap_err(), TransactionDbError::NotFoundError);
}

#[test]
fn amount_must_be_positive() {
    let mut storage = store_with(&[("a", 100), ("b", 100)]);
    let zero = storage.create_transaction(transfer("t1", "a", "b", 0));
    assert_eq!(zero.unwrap_err(), TransactionDbError::DBInsertError);
    let negative = storage.create_transaction(transfer("t2", "a", "b", -40));
    assert_eq!(negative.unwrap_err(), TransactionDbError::DBInsertError);
    assert_eq!(balance(&storage, "a"), 100);
    assert_eq!(balance(&storage, "b"), 100);
    assert_eq!(storage.transaction_count(), 0);
}

#[test]
fn failed_ledger_insert_rolls_the_balances_back() {
    let mut storage = store_with(&[("a", 1000), ("b", 0)]);
    assert!(storage.create_transaction(transfer("t1", "a", "b", 300)).is_ok());
    // The identifier is taken: both updates are staged, then the insert fails.
    let again = storage.create_transaction(transfer("t1", "a", "b", 100));
    assert_eq!(again.unwrap_err(), TransactionDbError::DBInsertError);
    assert_eq!(balance(&storage, "a"), 700);
    assert_eq!(balance(&storage, "b"), 300);
    assert_eq!(storage.transaction_count(), 1);
    assert_eq!(storage.get_transaction_by_id("t1").unwrap().amount_in_rs, 300);
}

#[test]
fn credit_that_does_not_fit_is_refused() {
    let mut storage = store_with(&[("a", 10), ("rich", i64::MAX - 5)]);
    let refused = storage.create_transaction(transfer("t1", "a", "rich", 6));
    assert_eq!(refused.unwrap_err(), TransactionDbError::DBUpdateError);
    assert_eq!(balance(&storage, "a"), 10);
    assert_eq!(balance(&storage, "rich"), i64::MAX - 5);
    assert!(storage.create_transaction(transfer("t2", "a", "rich", 5)).is_ok());
    assert_eq!(balance(&storage, "rich"), i64::MAX);
    assert_eq!(balance(&storage, "a"), 5);
}

#[test]
fn transfer_to_oneself_only_leaves_a_record() {
    let mut storage = store_with(&[("a", 100)]);
    let row = storage.create_transaction(transfer("t1", "a", "a", 60)).unwrap();
    assert_eq!(row.amount_in_rs, 60);
    assert_eq!(balance(&storage, "a"), 100);
    assert_eq!(storage.transaction_count(), 1);
    let too_much = storage.create_transaction(transfer("t2", "a", "a", 101));
    assert_eq!(too_much.unwrap_err(), TransactionDbError::InsufficientFunds);
}

#[test]
fn contending_transfers_succeed_while_they_fit() {
    let mut storage = store_with(&[("a", 1000), ("b", 0), ("c", 0)]);
    let amounts = [400, 500, 300, 100, 1];
    let mut moved = 0;
    let mut outcomes = Vec::new();
    for (n, amount) in amounts.iter().enumerate() {
        let recipient = if n % 2 == 0 { "b" } else { "c" };
        let before = balance(&storage, "a");
        let outcome = storage.create_transaction(transfer(&format!("t{n}"), "a", recipient, *amount));
        assert_eq!(outcome.is_ok(), *amount <= before);
        match outcome {
            Ok(_) => {
                moved += amount;
                outcomes.push(true);
            }
            Err(error) => {
                assert_eq!(error, TransactionDbError::InsufficientFunds);
                outcomes.push(false);
            }
        }
    }
    assert_eq!(outcomes, vec![true, true, false, true, false]);
    assert_eq!(moved, 1000);
    assert_eq!(balance(&storage, "a"), 0);
    assert_eq!(balance(&storage, "b") + balance(&storage, "c"), 1000);
}

#[test]
fn ledger_rows_are_numbered_in_order() {
    let mut storage = store_with(&[("a", 100), ("b", 0)]);
    for n in 1..=4 {
        let row = storage.create_transaction(transfer(&format!("t{n}"), "a", "b", 10)).unwrap();
        assert_eq!(row.id, n);
    }
    assert_eq!(storage.get_transaction_by_id("t3").unwrap().id, 3);
}

#[test]
fn description_and_timestamps_are_kept() {
    let mut storage = store_with(&[("a", 100), ("b", 0)]);
    let mut request = transfer("t1", "a", "b", 10);
    request.description = Some("rent".to_string());
    let created_at = request.created_at;
    let updated_at = request.updated_at;
    let row = storage.create_transaction(request).unwrap();
    assert_eq!(row.description, Some("rent".to_string()));
    assert_eq!(row.created_at, created_at);
    assert_eq!(row.updated_at, updated_at);
}

#[test]
fn new_store_is_empty() {
    let storage = Storage::new();
    assert_eq!(storage.user_count(), 0);
    assert_eq!(storage.transaction_count(), 0);
    assert_eq!(storage.get_user_by_user_id("a").unwrap_err(), UserDbError::NotFoundError);
    assert_eq!(
        storage.get_transaction_by_id("t").unwrap_err(),
        TransactionDbError::NotFoundError
    );
}

#[test]
fn accounts_are_numbered_and_found() {
    let mut storage = Storage::new();
    let first = storage.create_user(account("a", 5)).unwrap();
    let second = storage.create_user(account("b", 7)).unwrap();
    assert_eq!(first.id, 1);
    assert_eq!(second.id, 2);
    assert_eq!(first.created_at, first.last_modified_at);
    assert_eq!(storage.user_count(), 2);
    let found = storage.get_user_by_user_id("b").unwrap();
    assert_eq!(found.email, "b@example.com");
    assert_eq!(found.balance_in_rs, 7);
    let by_email = storage.get_user_by_email("a@example.com").unwrap();
    assert_eq!(by_email.user_id, "a");
    assert_eq!(
        storage.get_user_by_email("z@example.com").unwrap_err(),
        UserDbError::NotFoundError
    );
}

#[test]
fn duplicate_accounts_are_refused() {
    let mut storage = store_with(&[("a", 5)]);
    let mut same_email = account("b", 0);
    same_email.email = "a@example.com".to_string();
    assert_eq!(storage.create_user(same_email).unwrap_err(), UserDbError::DuplicateEmail);
    let mut same_id = account("a", 0);
    same_id.email = "other@example.com".to_string();
    assert_eq!(storage.create_user(same_id).unwrap_err(), UserDbError::DBInsertError);
    assert_eq!(storage.create_user(account("c", -1)).unwrap_err(), UserDbError::DBInsertError);
    assert_eq!(storage.user_count(), 1);
}

#[test]
fn update_sets_the_named_fields() {
    let mut storage = store_with(&[("a", 5), ("b", 9)]);
    let renamed = storage
        .update_user("a", UserUpdateInternal::new(Some("new name".to_string()), None))
        .unwrap();
    assert_eq!(renamed.name, "new name");
    assert_eq!(renamed.balance_in_rs, 5);
    let funded = storage.update_user("a", UserUpdateInternal::new(None, Some(40))).unwrap();
    assert_eq!(funded.name, "new name");
    assert_eq!(funded.balance_in_rs, 40);
    assert_eq!(funded.id, 1);
    assert_eq!(balance(&storage, "a"), 40);
    assert_eq!(balance(&storage, "b"), 9);
}

#[test]
fn update_is_refused_for_absent_account_and_negative_balance() {
    let mut storage = store_with(&[("a", 5)]);
    let absent = storage.update_user("x", UserUpdateInternal::new(None, Some(1)));
    assert_eq!(absent.unwrap_err(), UserDbError::NotFoundError);
    let negative = storage.update_user("a", UserUpdateInternal::new(None, Some(-1)));
    assert_eq!(negative.unwrap_err(), UserDbError::DBUpdateError);
    assert_eq!(balance(&storage, "a"), 5);
}

#[test]
fn listing_pages_through_the_transfers_of_an_account() {
    let mut storage = store_with(&[("a", 100), ("b", 100), ("c", 100)]);
    let requests = [
        ("t1", "a", "b"),
        ("t2", "b", "c"),
        ("t3", "c", "a"),
        ("t4", "a", "c"),
        ("t5", "b", "a"),
    ];
    for (id, sender, recipient) in requests {
        storage.create_transaction(transfer(id, sender, recipient, 1)).unwrap();
    }
    let ids = |rows: &Vec<dodopayments::storage::types::Transaction>| {
        rows.iter().map(|row| row.transaction_id.clone()).collect::<Vec<_>>()
    };
    let (all, total) = storage.list_transactions("a", 0, 10).unwrap();
    assert_eq!(total, 4);
    assert_eq!(ids(&all), vec!["t1", "t3", "t4", "t5"]);
    let (page, total) = storage.list_transactions("a", 1, 2).unwrap();
    assert_eq!(total, 4);
    assert_eq!(ids(&page), vec!["t3", "t4"]);
    let (tail, _) = storage.list_transactions("a", 3, 2).unwrap();
    assert_eq!(ids(&tail), vec!["t5"]);
    let (beyond, total) = storage.list_transactions("a", 4, 2).unwrap();
    assert!(beyond.is_empty());
    assert_eq!(total, 4);
    let (none, total) = storage.list_transactions("nobody", 0, 10).unwrap();
    assert!(none.is_empty());
    assert_eq!(total, 0);
    let (unlimited, _) = storage.list_transactions("b", 1, u64::MAX).unwrap();
    assert_eq!(ids(&unlimited), vec!["t2", "t5"]);
}

#[test]
fn injected_ledger_failure_leaves_no_trace() {
    let mut storage = store_with(&[("a", 1000), ("b", 0)]);
    let plan = FaultPlan::once(TransferAction::Record, StoreFault::Permanent);
    let failed = storage.execute(transfer("t1", "a", "b", 300), plan);
    assert_eq!(failed.unwrap_err(), TransactionDbError::DBInsertError);
    assert_eq!(balance(&storage, "a"), 1000);
    assert_eq!(balance(&storage, "b"), 0);
    assert_eq!(storage.transaction_count(), 0);
    assert_eq!(
        storage.get_transaction_by_id("t1").unwrap_err(),
        TransactionDbError::NotFoundError
    );
    // The same request goes through once the ledger works again.
    assert!(storage.execute(transfer("t1", "a", "b", 300), FaultPlan::none()).is_ok());
    assert_eq!(balance(&storage, "a"), 700);
    assert_eq!(balance(&storage, "b"), 300);
}

#[test]
fn failure_of_any_step_leaves_no_trace() {
    let steps = [
        (TransferAction::Begin, TransactionDbError::DBError),
        (TransferAction::CheckSender, TransactionDbError::DBFilterError),
        (TransferAction::CheckRecipient, TransactionDbError::DBFilterError),
        (TransferAction::ReadBalance, TransactionDbError::DBFilterError),
        (TransferAction::Debit, TransactionDbError::DBUpdateError),
        (TransferAction::Credit, TransactionDbError::DBUpdateError),
        (TransferAction::Record, TransactionDbError::DBInsertError),
        (TransferAction::Commit, TransactionDbError::DBInsertError),
    ];
    for fault in [StoreFault::Permanent, StoreFault::Transient] {
        for (step, error) in steps {
            let mut storage = store_with(&[("a", 1000), ("b", 0)]);
            let plan = FaultPlan { step, fault, times: 3 };
            let failed = storage.execute(transfer("t1", "a", "b", 300), plan);
            assert_eq!(failed.unwrap_err(), error, "{step:?}");
            assert_eq!(balance(&storage, "a"), 1000);
            assert_eq!(balance(&storage, "b"), 0);
            assert_eq!(storage.transaction_count(), 0);
        }
    }
}

#[test]
fn transient_commit_failure_is_overcome_by_retrying() {
    for times in 0..5u8 {
        let mut storage = store_with(&[("a", 1000), ("b", 0)]);
        let plan = FaultPlan { step: TransferAction::Commit, fault: StoreFault::Transient, times };
        let outcome = storage.execute(transfer("t1", "a", "b", 300), plan);
        if times < 3 {
            let row = outcome.unwrap();
            assert_eq!(row.id, 1);
            assert_eq!(balance(&storage, "a"), 700);
            assert_eq!(balance(&storage, "b"), 300);
            assert_eq!(storage.transaction_count(), 1);
        } else {
            assert_eq!(outcome.unwrap_err(), TransactionDbError::DBInsertError);
            assert_eq!(balance(&storage, "a"), 1000);
            assert_eq!(balance(&storage, "b"), 0);
            assert_eq!(storage.transaction_count(), 0);
        }
    }
}

#[test]
fn permanent_commit_failure_fails_the_transfer() {
    let mut storage = store_with(&[("a", 1000), ("b", 0)]);
    let plan = FaultPlan::once(TransferAction::Commit, StoreFault::Permanent);
    let failed = storage.execute(transfer("t1", "a", "b", 300), plan);
    assert_eq!(failed.unwrap_err(), TransactionDbError::DBInsertError);
    assert_eq!(balance(&storage, "a"), 1000);
    assert_eq!(storage.transaction_count(), 0);
}

#[test]
fn failure_of_a_step_that_is_not_reached_does_not_show() {
    let mut storage = store_with(&[("a", 100), ("b", 0)]);
    let at_record = FaultPlan::once(TransferAction::Record, StoreFault::Permanent);
    let absent = storage.execute(transfer("t1", "a", "nobody", 10), at_record);
    assert_eq!(absent.unwrap_err(), TransactionDbError::NotFoundError);
    let short = storage.execute(transfer("t2", "a", "b", 101), at_record);
    assert_eq!(short.unwrap_err(), TransactionDbError::InsufficientFunds);
    let at_read = FaultPlan::once(TransferAction::ReadBalance, StoreFault::Permanent);
    let short = storage.execute(transfer("t3", "a", "b", 101), at_read);
    assert_eq!(short.unwrap_err(), TransactionDbError::DBFilterError);
    let nothing = storage.execute(transfer("t4", "a", "b", 0), FaultPlan::once(
        TransferAction::Begin,
        StoreFault::Permanent,
    ));
    assert_eq!(nothing.unwrap_err(), TransactionDbError::DBInsertError);
    let not_a_step = FaultPlan {
        step: TransferAction::Rollback(TransactionDbError::NotFoundError),
        fault: StoreFault::Permanent,
        times: 9,
    };
    assert!(storage.execute(transfer("t5", "a", "b", 10), not_a_step).is_ok());
    assert_eq!(balance(&storage, "a"), 90);
    assert_eq!(balance(&storage, "b"), 10);
    assert_eq!(storage.transaction_count(), 1);
}
