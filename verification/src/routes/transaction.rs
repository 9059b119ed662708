use time::PrimitiveDateTime;
use vstd::prelude::*;

use crate::consts::TRANSACTION_ID_LENGTH;
use crate::error::{ApiError, TransactionDbError};
use crate::routes::api_models::{
    CreateTransactionRequest, GetTransactionResponse, ListTransactionsRequest,
    ListTransactionsResponse,
};
use crate::storage::caching::Caching;
use crate::storage::tables::lemma_page_of;
use crate::storage::types::{NewTransaction, Transaction, TransactionStatus, User};
use crate::storage::{Cacheable, TransactionInterface};
use crate::types::Claims;
use crate::utils::datetime;
use crate::utils::generate_nano_id;

verus! {

impl CreateTransactionRequest {
    /// The transfer that the request asks for, under an identifier and with
    /// its timestamps: pending, without a description.
    pub open spec fn transfer(
        self,
        transaction_id: String,
        created_at: PrimitiveDateTime,
        updated_at: PrimitiveDateTime,
    ) -> NewTransaction {
        NewTransaction {
            transaction_id,
            sender_id: self.sender_id,
            recipient_id: self.receiver_id,
            amount_in_rs: self.amount,
            description: None,
            created_at,
            status: TransactionStatus::Pending,
            updated_at,
        }
    }
}

impl CreateTransactionRequest {
    /// The transfer that the request asks for, under an identifier and with
    /// its timestamps.
    pub fn into_transfer(
        self,
        transaction_id: String,
        created_at: PrimitiveDateTime,
        updated_at: PrimitiveDateTime,
    ) -> (new: NewTransaction)
        ensures
            new == self.transfer(transaction_id, created_at, updated_at),
    {
        NewTransaction {
            transaction_id,
            sender_id: self.sender_id,
            recipient_id: self.receiver_id,
            amount_in_rs: self.amount,
            description: None,
            created_at,
            status: TransactionStatus::Pending,
            updated_at,
        }
    }
}

/// What a transfer is answered with, given what the store answered to it:
/// the recorded transfer, or the store's failure as
/// [`ApiError::of_transfer`] classes it: absence as not found, want of funds
/// as such, anything else as the store's.
pub fn transferred(created: Result<Transaction, TransactionDbError>) -> (answer: Result<
    GetTransactionResponse,
    ApiError,
>)
    ensures
        match created {
            Ok(row) => answer matches Ok(response) && {
                &&& response.transaction_id == row.transaction_id
                &&& response.sender_id == row.sender_id
                &&& response.receiver_id == row.recipient_id
                &&& response.amount == row.amount_in_rs
            },
            Err(cause) => answer == Err::<GetTransactionResponse, ApiError>(
                ApiError::of_transfer(cause),
            ),
        },
{
    match created {
        Ok(row) => Ok(GetTransactionResponse::from(row)),
        Err(cause) => Err(ApiError::from_transfer(cause)),
    }
}

/// Executes the transfer that a request asks for, under the given
/// identifier and timestamps. A request that is refused fails with
/// `ValidationError`; a transfer that the store refuses fails as
/// [`ApiError::of_transfer`] says. Either way nothing has changed.
pub fn submit_transaction<T>(
    db: &mut Caching<T>,
    payload: CreateTransactionRequest,
    transaction_id: String,
    created_at: PrimitiveDateTime,
    updated_at: PrimitiveDateTime,
) -> (answer: Result<GetTransactionResponse, ApiError>) where
    T: Cacheable<User, Key = String, Value = User> + Cacheable<
        Transaction,
        Key = String,
        Value = Transaction,
    > + TransactionInterface<Error = TransactionDbError>,

    ensures
        final(db).users() == old(db).users(),
        final(db).transactions() == old(db).transactions(),
        final(db).user_bounds() == old(db).user_bounds(),
        final(db).transaction_bounds() == old(db).transaction_bounds(),
        match answer {
            Ok(response) => {
                let new = payload.transfer(transaction_id, created_at, updated_at);
                &&& payload.refusal() is None
                &&& old(db).inner()@.transfer_refusal(new) is None
                &&& final(db).inner()@ == old(db).inner()@.transfer_applied(new)
                &&& response.transaction_id == transaction_id
                &&& response.sender_id == payload.sender_id
                &&& response.receiver_id == payload.receiver_id
                &&& response.amount == payload.amount
            },
            Err(error) => {
                &&& final(db).inner()@ == old(db).inner()@
                &&& if payload.refusal() is Some {
                    error == ApiError::ValidationError
                } else {
                    match old(db).inner().transfer_failure(
                        payload.transfer(transaction_id, created_at, updated_at),
                    ) {
                        Some(cause) => error == ApiError::of_transfer(cause),
                        None => false,
                    }
                }
            },
        },
{
    if payload.validate().is_err() {
        return Err(ApiError::ValidationError);
    }
    let new_transaction = payload.into_transfer(transaction_id, created_at, updated_at);
    let created = db.create_transaction(new_transaction);
    transferred(created)
}

/// Creates a new transaction: executes the transfer that the request asks
/// for, under a fresh identifier and stamped with the current time.
pub fn create_transaction<T>(
    db: &mut Caching<T>,
    claims: &Claims,
    payload: CreateTransactionRequest,
) -> (answer: Result<GetTransactionResponse, ApiError>) where
    T: Cacheable<User, Key = String, Value = User> + Cacheable<
        Transaction,
        Key = String,
        Value = Transaction,
    > + TransactionInterface<Error = TransactionDbError>,

    ensures
        final(db).users() == old(db).users(),
        final(db).transactions() == old(db).transactions(),
        final(db).user_bounds() == old(db).user_bounds(),
        final(db).transaction_bounds() == old(db).transaction_bounds(),
        match answer {
            Ok(response) => {
                &&& payload.refusal() is None
                &&& response.transaction_id@.len() == TRANSACTION_ID_LENGTH
                &&& response.sender_id == payload.sender_id
                &&& response.receiver_id == payload.receiver_id
                &&& response.amount == payload.amount
                &&& exists|new: NewTransaction|
                    {
                        &&& new.transaction_id == response.transaction_id
                        &&& new.sender_id == payload.sender_id
                        &&& new.recipient_id == payload.receiver_id
                        &&& new.amount_in_rs == payload.amount
                        &&& old(db).inner()@.transfer_refusal(new) is None
                        &&& final(db).inner()@ == #[trigger] old(db).inner()@.transfer_applied(new)
                    }
            },
            Err(error) => {
                &&& final(db).inner()@ == old(db).inner()@
                &&& if payload.refusal() is Some {
                    error == ApiError::ValidationError
                } else {
                    exists|new: NewTransaction|
                        {
                            &&& new.transaction_id@.len() == TRANSACTION_ID_LENGTH
                            &&& new.sender_id == payload.sender_id
                            &&& new.recipient_id == payload.receiver_id
                            &&& new.amount_in_rs == payload.amount
                            &&& match #[trigger] old(db).inner().transfer_failure(new) {
                                Some(cause) => error == ApiError::of_transfer(cause),
                                None => false,
                            }
                        }
                }
            },
        },
{
    let transaction_id = generate_nano_id(TRANSACTION_ID_LENGTH);
    let created_at = datetime::now();
    let updated_at = datetime::now();
    let ghost new = payload.transfer(transaction_id, created_at, updated_at);
    let answer = submit_transaction(db, payload, transaction_id, created_at, updated_at);
    proof {
        if answer is Ok {
            assert(db.inner()@ == old(db).inner()@.transfer_applied(new));
        }
    }
    answer
}

/// What a request for a transfer is answered with, given what the read of
/// the transfer gave: the transfer, or the store's failure as
/// [`ApiError::of_transaction_lookup`] classes it.
pub fn found_transaction(found: Result<Transaction, TransactionDbError>) -> (answer: Result<
    GetTransactionResponse,
    ApiError,
>)
    ensures
        match found {
            Ok(row) => answer matches Ok(response) && {
                &&& response.transaction_id == row.transaction_id
                &&& response.sender_id == row.sender_id
                &&& response.receiver_id == row.recipient_id
                &&& response.amount == row.amount_in_rs
            },
            Err(cause) => answer == Err::<GetTransactionResponse, ApiError>(
                ApiError::of_transaction_lookup(cause),
            ),
        },
{
    match found {
        Ok(row) => Ok(GetTransactionResponse::from(row)),
        Err(cause) => Err(ApiError::from_transaction_lookup(cause)),
    }
}

/// Gets a transaction by ID: from the cache or, on a miss, from the store.
/// It fails only as the store's lookup does: the transfer is not found
/// exactly where the store reports it absent.
pub fn get_transaction<T>(db: &mut Caching<T>, transaction_id: &str, claims: &Claims) -> (answer:
    Result<GetTransactionResponse, ApiError>) where
    T: Cacheable<User, Key = String, Value = User> + Cacheable<
        Transaction,
        Key = String,
        Value = Transaction,
    > + TransactionInterface<Error = TransactionDbError>,

    ensures
        old(db).same_store_and_bounds(final(db)),
        final(db).users() == old(db).users(),
        match answer {
            Ok(response) => {
                let key = transaction_id@;
                &&& final(db).transactions().contains_key(key)
                &&& response.transaction_id == final(db).transactions()[key].transaction_id
                &&& response.sender_id == final(db).transactions()[key].sender_id
                &&& response.receiver_id == final(db).transactions()[key].recipient_id
                &&& response.amount == final(db).transactions()[key].amount_in_rs
                &&& final(db).transactions() == old(db).transactions() || (exists|i: int|
                    {
                        &&& #[trigger] old(db).inner()@.transaction_at(key, i)
                        &&& final(db).transactions() == old(db).transactions().insert(
                            key,
                            old(db).inner()@.transactions[i],
                        )
                    })
            },
            Err(error) => {
                &&& final(db).transactions() == old(db).transactions()
                &&& match old(db).inner().transaction_lookup_failure(transaction_id@) {
                    Some(cause) => error == ApiError::of_transaction_lookup(cause),
                    None => false,
                }
            },
        },
{
    let found = db.get_transaction_by_id(transaction_id);
    found_transaction(found)
}

/// Where a page begins: the number of transfers on the pages before it.
/// There is none for page 0, nor where the number does not fit.
pub open spec fn page_offset_spec(page: u64, page_size: u64) -> Option<u64> {
    if page == 0 || (page - 1) * page_size > u64::MAX {
        None
    } else {
        Some(((page - 1) * page_size) as u64)
    }
}

/// Where a page begins.
pub fn page_offset(page: u64, page_size: u64) -> (offset: Option<u64>)
    ensures
        offset == page_offset_spec(page, page_size),
{
    if page == 0 {
        None
    } else {
        (page - 1).checked_mul(page_size)
    }
}

/// Whether `responses` answer `rows`, one for one and in order.
pub open spec fn answers(responses: Seq<GetTransactionResponse>, rows: Seq<Transaction>) -> bool {
    &&& responses.len() == rows.len()
    &&& forall|i: int|
        0 <= i < rows.len() ==> {
            &&& (#[trigger] responses[i]).transaction_id == rows[i].transaction_id
            &&& responses[i].sender_id == rows[i].sender_id
            &&& responses[i].receiver_id == rows[i].recipient_id
            &&& responses[i].amount == rows[i].amount_in_rs
        }
}

/// What a request for a page is answered with, given what the store
/// listed: the transfers one for one and in order, with their number, or
/// `TransactionDatabaseError` where the store failed.
pub fn listed_page(listed: Result<(Vec<Transaction>, u64), TransactionDbError>) -> (answer: Result<
    (Vec<GetTransactionResponse>, u64),
    ApiError,
>)
    ensures
        match listed {
            Ok(page) => answer matches Ok(answered) && answers(answered.0@, page.0@)
                && answered.1 == page.1,
            Err(_) => answer == Err::<(Vec<GetTransactionResponse>, u64), ApiError>(
                ApiError::TransactionDatabaseError,
            ),
        },
{
    let (rows, total) = match listed {
        Ok(page) => page,
        Err(_) => {
            return Err(ApiError::TransactionDatabaseError);
        },
    };
    let mut responses: Vec<GetTransactionResponse> = Vec::new();
    let mut i: usize = 0;
    while i < rows.len()
        invariant
            i <= rows.len(),
            answers(responses@, rows@.take(i as int)),
        decreases rows.len() - i,
    {
        responses.push(GetTransactionResponse::from(rows[i].clone()));
        i = i + 1;
    }
    assert(rows@.take(i as int) =~= rows@);
    Ok((responses, total))
}

/// One page of the transfers that an account sent or received, with the
/// number of all of them. Pages are counted from 1; page 0, and a page so far
/// out that its offset does not fit, fail with `ValidationError`. Any other
/// page is listed unless the store fails to list it. A page holds at most
/// `page_size` transfers, each sent or received by the account.
pub fn get_paginated_transactions<T>(
    db: &Caching<T>,
    user_id: &str,
    page: u64,
    page_size: u64,
) -> (answer: Result<(Vec<GetTransactionResponse>, u64), ApiError>) where
    T: Cacheable<User, Key = String, Value = User> + Cacheable<
        Transaction,
        Key = String,
        Value = Transaction,
    > + TransactionInterface<Error = TransactionDbError>,

    ensures
        match page_offset_spec(page, page_size) {
            None => answer == Err::<(Vec<GetTransactionResponse>, u64), ApiError>(
                ApiError::ValidationError,
            ),
            Some(offset) => match answer {
                Ok(listed) => {
                    &&& db.inner().list_failure(user_id@, offset, page_size) is None
                    &&& answers(
                        listed.0@,
                        db.inner()@.page_of(user_id@, offset as int, page_size as int),
                    )
                    &&& listed.1 == db.inner()@.transactions_of(user_id@).len()
                    &&& listed.0@.len() <= page_size
                    &&& forall|i: int|
                        0 <= i < listed.0@.len() ==> (#[trigger] listed.0@[i]).sender_id@
                            == user_id@ || listed.0@[i].receiver_id@ == user_id@
                },
                Err(error) => {
                    &&& db.inner().list_failure(user_id@, offset, page_size) is Some
                    &&& error == ApiError::TransactionDatabaseError
                },
            },
        },
{
    let offset = match page_offset(page, page_size) {
        Some(offset) => offset,
        None => {
            return Err(ApiError::ValidationError);
        },
    };
    let listed = db.list_transactions(user_id, offset, page_size);
    proof {
        lemma_page_of(db.inner()@, user_id@, offset as int, page_size as int);
    }
    listed_page(listed)
}

/// Lists the transactions of the bearer, one page at a time: the first page
/// of 10 unless the request says otherwise.
pub fn list_transactions<T>(db: &Caching<T>, params: ListTransactionsRequest, claims: &Claims) -> (answer:
    Result<ListTransactionsResponse, ApiError>) where
    T: Cacheable<User, Key = String, Value = User> + Cacheable<
        Transaction,
        Key = String,
        Value = Transaction,
    > + TransactionInterface<Error = TransactionDbError>,

    ensures
        match page_offset_spec(params.page_spec(), params.page_size_spec()) {
            None => answer == Err::<ListTransactionsResponse, ApiError>(ApiError::ValidationError),
            Some(offset) => match answer {
                Ok(response) => {
                    &&& db.inner().list_failure(claims.user_id@, offset, params.page_size_spec())
                        is None
                    &&& response.page == params.page_spec()
                    &&& response.page_size == params.page_size_spec()
                    &&& answers(
                        response.transactions@,
                        db.inner()@.page_of(
                            claims.user_id@,
                            offset as int,
                            response.page_size as int,
                        ),
                    )
                    &&& response.total_count == db.inner()@.transactions_of(
                        claims.user_id@,
                    ).len()
                },
                Err(error) => {
                    &&& db.inner().list_failure(claims.user_id@, offset, params.page_size_spec())
                        is Some
                    &&& error == ApiError::TransactionDatabaseError
                },
            },
        },
{
    let page = params.page();
    let page_size = params.page_size();
    match get_paginated_transactions(db, claims.user_id.as_str(), page, page_size) {
        Ok((transactions, total_count)) => Ok(
            ListTransactionsResponse { transactions, total_count, page, page_size },
        ),
        Err(error) => Err(error),
    }
}

} // verus!
