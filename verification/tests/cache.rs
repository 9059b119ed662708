use dodopayments::configs::{CacheConfig, MAX_TIME_TO_IDLE};
use dodopayments::error::{TransactionDbError, UserDbError};
use dodopayments::storage::caching::{snapshot, Caching};
use dodopayments::storage::types::{
    NewTransaction, Transaction, TransactionStatus, User, UserNew, UserUpdateInternal,
};
use dodopayments::storage::{Storage, UserInterface};
use dodopayments::utils::datetime::now;

fn config(tti: Option<u64>) -> CacheConfig {
    CacheConfig { tti, max_capacity: 100 }
}

fn account(id: &str, balance: i64) -> UserNew {
    UserNew {
        user_id: id.to_string(),
        email: format!("{id}@example.com"),
        name: format!("holder {id}"),
        password: "hash".to_string(),
        balance_in_rs: balance,
    }
}

fn transfer(id: &str, sender: &str, recipient: &str, amount: i64) -> NewTransaction {
    NewTransaction {
        transaction_id: id.to_string(),
        sender_id: sender.to_string(),
        recipient_id: recipient.to_string(),
        amount_in_rs: amount,
        description: None,
        created_at: now(),
        status: TransactionStatus::Pending,
        updated_at: now(),
    }
}

fn row(id: &str, balance: i64) -> User {
    User {
        id: 1,
        user_id: id.to_string(),
        email: format!("{id}@example.com"),
        name: "cached".to_string(),
        password: "hash".to_string(),
        balance_in_rs: balance,
        created_at: now(),
        last_modified_at: now(),
    }
}

fn read_store(db: &Caching<Storage>, id: &str) -> i64 {
    UserInterface::get_user_by_user_id(db.store(), id).unwrap().balance_in_rs
}

fn wait(millis: u64) {
    let start = std::time::Instant::now();
    while start.elapsed() < std::time::Duration::from_millis(millis) {
        std::hint::spin_loop();
    }
}

#[test]
fn fresh_cache_misses() {
    let db = Caching::implement_cache(&config(None), Storage::new());
    assert!(db.lookup::<User>("a".to_string()).is_none());
    assert!(db.lookup::<Transaction>("a".to_string()).is_none());
}

#[test]
fn lookup_gives_what_was_cached_again_and_again() {
    let mut db = Caching::implement_cache(&config(Some(60)), Storage::new());
    db.cache_data::<User>("a".to_string(), row("a", 5));
    for _ in 0..3 {
        let found = db.lookup::<User>("a".to_string()).unwrap();
        assert_eq!(found.user_id, "a");
        assert_eq!(found.balance_in_rs, 5);
    }
    assert!(db.lookup::<User>("b".to_string()).is_none());
}

#[test]
fn caching_again_replaces_the_entry() {
    let mut db = Caching::implement_cache(&config(None), Storage::new());
    db.cache_data::<User>("a".to_string(), row("a", 5));
    db.cache_data::<User>("a".to_string(), row("a", 8));
    assert_eq!(db.lookup::<User>("a".to_string()).unwrap().balance_in_rs, 8);
}

#[test]
fn changing_a_looked_up_value_does_not_change_the_cache() {
    let mut db = Caching::implement_cache(&config(None), Storage::new());
    db.cache_data::<User>("a".to_string(), row("a", 5));
    let mut found = db.lookup::<User>("a".to_string()).unwrap();
    found.balance_in_rs = 1_000_000;
    found.name.push_str(" changed");
    let again = db.lookup::<User>("a".to_string()).unwrap();
    assert_eq!(again.balance_in_rs, 5);
    assert_eq!(again.name, "cached");
}

#[test]
fn caches_of_the_two_tables_do_not_share_keys() {
    let mut db = Caching::implement_cache(&config(None), Storage::new());
    db.cache_data::<User>("same".to_string(), row("same", 5));
    assert!(db.lookup::<Transaction>("same".to_string()).is_none());
    let ledger_row = Transaction {
        id: 1,
        transaction_id: "same".to_string(),
        sender_id: "a".to_string(),
        recipient_id: "b".to_string(),
        amount_in_rs: 3,
        description: None,
        created_at: now(),
        status: TransactionStatus::Completed,
        updated_at: now(),
    };
    db.cache_data::<Transaction>("same".to_string(), ledger_row);
    assert_eq!(db.lookup::<Transaction>("same".to_string()).unwrap().amount_in_rs, 3);
    assert_eq!(db.lookup::<User>("same".to_string()).unwrap().balance_in_rs, 5);
}

#[test]
fn idle_entry_expires_and_the_next_read_asks_the_store() {
    let mut db = Caching::implement_cache(&config(Some(1)), Storage::new());
    db.create_user(account("a", 5)).unwrap();
    assert_eq!(db.get_user_by_user_id("a").unwrap().balance_in_rs, 5);
    db.update_user("a", UserUpdateInternal::new(None, Some(9))).unwrap();
    // Within the idle time the cached row is served.
    assert_eq!(db.lookup::<User>("a".to_string()).unwrap().balance_in_rs, 5);
    assert_eq!(db.get_user_by_user_id("a").unwrap().balance_in_rs, 5);
    wait(1500);
    assert!(db.lookup::<User>("a".to_string()).is_none());
    // The miss goes to the store, whose row is cached again.
    assert_eq!(db.get_user_by_user_id("a").unwrap().balance_in_rs, 9);
    assert_eq!(db.lookup::<User>("a".to_string()).unwrap().balance_in_rs, 9);
}

#[test]
fn read_through_fills_the_cache_on_a_miss() {
    let mut db = Caching::implement_cache(&config(None), Storage::new());
    db.create_user(account("a", 5)).unwrap();
    assert!(db.lookup::<User>("a".to_string()).is_none());
    let read = db.get_user_by_user_id("a").unwrap();
    assert_eq!(read.balance_in_rs, 5);
    assert_eq!(db.lookup::<User>("a".to_string()).unwrap().balance_in_rs, 5);
    assert_eq!(db.get_user_by_user_id("a").unwrap().email, "a@example.com");
}

#[test]
fn read_through_does_not_cache_a_miss_of_the_store() {
    let mut db = Caching::implement_cache(&config(None), Storage::new());
    assert_eq!(db.get_user_by_user_id("a").unwrap_err(), UserDbError::NotFoundError);
    assert!(db.lookup::<User>("a".to_string()).is_none());
    db.create_user(account("a", 5)).unwrap();
    assert_eq!(db.get_user_by_user_id("a").unwrap().balance_in_rs, 5);
    assert_eq!(
        db.get_transaction_by_id("t").unwrap_err(),
        TransactionDbError::NotFoundError
    );
    assert!(db.lookup::<Transaction>("t".to_string()).is_none());
}

#[test]
fn read_by_email_asks_the_store_and_caches_under_the_identifier() {
    let mut db = Caching::implement_cache(&config(None), Storage::new());
    db.create_user(account("a", 5)).unwrap();
    let found = db.get_user_by_email("a@example.com").unwrap();
    assert_eq!(found.user_id, "a");
    assert_eq!(db.lookup::<User>("a".to_string()).unwrap().email, "a@example.com");
    db.update_user("a", UserUpdateInternal::new(None, Some(6))).unwrap();
    assert_eq!(db.get_user_by_email("a@example.com").unwrap().balance_in_rs, 6);
    assert_eq!(db.lookup::<User>("a".to_string()).unwrap().balance_in_rs, 6);
}

#[test]
fn writes_leave_the_cache_stale() {
    let mut db = Caching::implement_cache(&config(None), Storage::new());
    db.create_user(account("a", 1000)).unwrap();
    db.create_user(account("b", 0)).unwrap();
    assert_eq!(db.get_user_by_user_id("a").unwrap().balance_in_rs, 1000);
    db.create_transaction(transfer("t1", "a", "b", 300)).unwrap();
    // The store has moved on, the cached row has not.
    assert_eq!(read_store(&db, "a"), 700);
    assert_eq!(db.get_user_by_user_id("a").unwrap().balance_in_rs, 1000);
    // The other account was never read, so it comes from the store.
    assert_eq!(db.get_user_by_user_id("b").unwrap().balance_in_rs, 300);
    // Caching the row again makes the cache agree with the store.
    let current = db.get_user_by_email("a@example.com").unwrap();
    assert_eq!(current.balance_in_rs, 700);
    assert_eq!(db.get_user_by_user_id("a").unwrap().balance_in_rs, 700);
}

#[test]
fn transfer_is_read_through_the_cache() {
    let mut db = Caching::implement_cache(&config(None), Storage::new());
    db.create_user(account("a", 1000)).unwrap();
    db.create_user(account("b", 0)).unwrap();
    let created = db.create_transaction(transfer("t1", "a", "b", 300)).unwrap();
    assert!(db.lookup::<Transaction>("t1".to_string()).is_none());
    let read = db.get_transaction_by_id("t1").unwrap();
    assert_eq!(read.id, created.id);
    assert_eq!(read.amount_in_rs, 300);
    assert_eq!(db.lookup::<Transaction>("t1".to_string()).unwrap().amount_in_rs, 300);
}

#[test]
fn failed_transfer_changes_neither_store_nor_cache() {
    let mut db = Caching::implement_cache(&config(None), Storage::new());
    db.create_user(account("a", 10)).unwrap();
    db.create_user(account("b", 0)).unwrap();
    let refused = db.create_transaction(transfer("t1", "a", "b", 11));
    assert_eq!(refused.unwrap_err(), TransactionDbError::InsufficientFunds);
    assert!(db.lookup::<User>("a".to_string()).is_none());
    assert!(db.lookup::<Transaction>("t1".to_string()).is_none());
    assert_eq!(db.get_user_by_user_id("a").unwrap().balance_in_rs, 10);
    assert_eq!(db.get_user_by_user_id("b").unwrap().balance_in_rs, 0);
    assert_eq!(db.store().transaction_count(), 0);
}

#[test]
fn idle_time_is_bounded() {
    assert_eq!(MAX_TIME_TO_IDLE, 1000 * 365 * 24 * 3600);
    assert!(config(None).validate());
    assert!(config(Some(0)).validate());
    assert!(config(Some(MAX_TIME_TO_IDLE)).validate());
    assert!(!config(Some(MAX_TIME_TO_IDLE + 1)).validate());
    let longest = Caching::try_implement_cache(&config(Some(MAX_TIME_TO_IDLE)), Storage::new());
    assert!(longest.is_ok());
    let too_long = Caching::try_implement_cache(&config(Some(u64::MAX)), Storage::new());
    assert!(too_long.is_err());
}

#[test]
fn snapshot_is_a_copy_of_what_the_cache_gave() {
    let shared = std::sync::Arc::new(row("a", 5));
    let copy = snapshot(Some(shared.clone())).unwrap();
    assert_eq!(copy.user_id, "a");
    assert_eq!(copy.balance_in_rs, 5);
    assert_eq!(std::sync::Arc::strong_count(&shared), 1);
    assert!(snapshot::<User>(None).is_none());
    assert_eq!(snapshot(Some(std::sync::Arc::new(7u8))), Some(7));
}

#[test]
fn cached_account_is_answered_without_the_store() {
    let mut db = Caching::implement_cache(&config(None), Storage::new());
    // The store does not know the account, and is not asked.
    let answer = db.user_or_fetch(Some(row("ghost", 3)), "ghost").unwrap();
    assert_eq!(answer.user_id, "ghost");
    assert_eq!(answer.balance_in_rs, 3);
    assert!(db.lookup::<User>("ghost".to_string()).is_none());
    assert_eq!(db.store().user_count(), 0);
}

#[test]
fn missing_account_is_fetched_and_cached() {
    let mut db = Caching::implement_cache(&config(None), Storage::new());
    assert_eq!(db.user_or_fetch(None, "a").unwrap_err(), UserDbError::NotFoundError);
    assert!(db.lookup::<User>("a".to_string()).is_none());
    db.create_user(account("a", 5)).unwrap();
    let fetched = db.user_or_fetch(None, "a").unwrap();
    assert_eq!(fetched.balance_in_rs, 5);
    assert_eq!(db.lookup::<User>("a".to_string()).unwrap().balance_in_rs, 5);
}

#[test]
fn cached_transfer_is_answered_without_the_store() {
    let mut db = Caching::implement_cache(&config(None), Storage::new());
    let ledger_row = Transaction {
        id: 9,
        transaction_id: "t9".to_string(),
        sender_id: "a".to_string(),
        recipient_id: "b".to_string(),
        amount_in_rs: 3,
        description: None,
        created_at: now(),
        status: TransactionStatus::Completed,
        updated_at: now(),
    };
    let answer = db.transaction_or_fetch(Some(ledger_row), "t9").unwrap();
    assert_eq!(answer.id, 9);
    assert!(db.lookup::<Transaction>("t9".to_string()).is_none());
    assert_eq!(
        db.transaction_or_fetch(None, "t9").unwrap_err(),
        TransactionDbError::NotFoundError
    );
    db.create_user(account("a", 10)).unwrap();
    db.create_user(account("b", 0)).unwrap();
    db.create_transaction(transfer("t9", "a", "b", 4)).unwrap();
    let fetched = db.transaction_or_fetch(None, "t9").unwrap();
    assert_eq!(fetched.amount_in_rs, 4);
    assert_eq!(db.lookup::<Transaction>("t9".to_string()).unwrap().amount_in_rs, 4);
}

#[test]
fn facade_fails_as_the_store_does() {
    let mut db = Caching::implement_cache(&config(None), Storage::new());
    db.create_user(account("a", 10)).unwrap();
    let mut same_email = account("b", 0);
    same_email.email = "a@example.com".to_string();
    assert_eq!(db.create_user(same_email).unwrap_err(), UserDbError::DuplicateEmail);
    assert_eq!(
        db.update_user("nobody", UserUpdateInternal::new(None, Some(1))).unwrap_err(),
        UserDbError::NotFoundError
    );
    assert_eq!(
        db.update_user("a", UserUpdateInternal::new(None, Some(-1))).unwrap_err(),
        UserDbError::DBUpdateError
    );
    assert_eq!(
        db.get_user_by_email("nobody@example.com").unwrap_err(),
        UserDbError::NotFoundError
    );
    assert_eq!(
        db.create_transaction(transfer("t1", "a", "nobody", 1)).unwrap_err(),
        TransactionDbError::NotFoundError
    );
    let (rows, total) = db.list_transactions("a", 0, 10).unwrap();
    assert!(rows.is_empty());
    assert_eq!(total, 0);
    db.create_user(account("b", 0)).unwrap();
    db.create_transaction(transfer("t1", "a", "b", 1)).unwrap();
    let (rows, total) = db.list_transactions("a", 0, 10).unwrap();
    assert_eq!(rows.len(), 1);
    assert_eq!(total, 1);
}
