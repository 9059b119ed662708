use vstd::prelude::*;

use crate::consts;
use crate::error::{ApiError, TransactionDbError, UserDbError};
use crate::routes::api_models::{
    GetTransactionResponse, GetUserResponse, SignUpRequest, SignUpResponse, UpdateUserResponse,
};
use crate::routes::user::error::UserError;
use crate::routes::user::password;
use crate::storage::types::{Transaction, User, UserNew};
use crate::types::{Claims, Email};
use crate::utils;

verus! {

impl UserNew {
    /// The account that a sign-up request asks for, given its identifier and
    /// the outcome of hashing its password: the request's email and name, the
    /// hash as the credential and a balance of zero. Where hashing failed
    /// there is no account.
    pub fn assemble(new_user: SignUpRequest, user_id: String, hashed: Result<String, UserError>) -> (user:
        Result<UserNew, ApiError>)
        ensures
            match hashed {
                Ok(hash) => user == Ok::<UserNew, ApiError>(
                    UserNew {
                        user_id,
                        email: new_user.email.0,
                        name: new_user.name,
                        password: hash,
                        balance_in_rs: 0,
                    },
                ),
                Err(_) => user matches Err(ApiError::UnknownError(text)) && text@
                    == "Failed to hash password"@,
            },
    {
        match hashed {
            Ok(hash) => Ok(
                UserNew {
                    user_id,
                    email: new_user.email.0,
                    name: new_user.name,
                    password: hash,
                    balance_in_rs: 0,
                },
            ),
            Err(_) => Err(ApiError::UnknownError("Failed to hash password")),
        }
    }

    /// The account that a sign-up request asks for, under a fresh identifier
    /// and with its password hashed.
    pub fn try_from(new_user: SignUpRequest) -> (user: Result<UserNew, ApiError>)
        ensures
            match user {
                Ok(user) => {
                    &&& user.user_id@.len() == 36
                    &&& user.email == new_user.email.0
                    &&& user.name == new_user.name
                    &&& user.balance_in_rs == 0
                    &&& password::argon2_verdict(new_user.password.0@, user.password@) == Some(
                        true,
                    )
                },
                Err(error) => error matches ApiError::UnknownError(text) && text@
                    == "Failed to hash password"@,
            },
    {
        let user_id = utils::generate_uuid();
        let hashed = password::generate_password_hash(new_user.password.0.clone());
        Self::assemble(new_user, user_id, hashed)
    }
}

impl SignUpResponse {
    /// What is answered for a created account.
    pub fn from(user: User) -> (response: Self)
        ensures
            response.user_id == user.user_id,
            response.name == user.name,
            response.email.0 == user.email,
    {
        let created_at = utils::datetime::render(&user.created_at);
        Self { user_id: user.user_id, name: user.name, email: Email::new(user.email), created_at }
    }
}

impl Claims {
    /// The claims of a token for an account that expires at `exp`.
    pub fn of(value: &User, exp: u64) -> (claims: Self)
        ensures
            claims.user_id == value.user_id,
            claims.email == value.email,
            claims.name == value.name,
            claims.exp == exp,
    {
        Self {
            user_id: value.user_id.clone(),
            email: value.email.clone(),
            name: value.name.clone(),
            exp,
        }
    }

    /// The claims of a token for an account, valid for
    /// [`consts::JWT_TOKEN_TIME_IN_SECS`] from now.
    pub fn try_from(value: &User) -> (claims: Result<Self, ApiError>)
        ensures
            match claims {
                Ok(claims) => {
                    &&& claims.user_id == value.user_id
                    &&& claims.email == value.email
                    &&& claims.name == value.name
                },
                Err(error) => error matches ApiError::UnknownError(text) && (text@
                    == "Failed to add exp_duration to current system time"@ || text@
                    == "Failed to compute elapsed time"@),
            },
    {
        let exp_duration = utils::duration_from_secs(consts::JWT_TOKEN_TIME_IN_SECS);
        match utils::generate_exp(exp_duration) {
            Ok(exp) => Ok(Self::of(value, utils::duration_as_secs(&exp))),
            Err(error) => Err(error),
        }
    }
}

impl GetUserResponse {
    /// What is answered for an account's profile.
    pub fn from(value: User) -> (response: Self)
        ensures
            response.user_id == value.user_id,
            response.email == value.email,
            response.name == value.name,
            response.balance_in_rs == value.balance_in_rs,
    {
        let created_at = utils::datetime::render(&value.created_at);
        let last_modified_at = utils::datetime::render(&value.last_modified_at);
        Self {
            user_id: value.user_id,
            email: value.email,
            name: value.name,
            balance_in_rs: value.balance_in_rs,
            created_at,
            last_modified_at,
        }
    }
}

impl UpdateUserResponse {
    /// What is answered for an updated account.
    pub fn from(value: User) -> (response: Self)
        ensures
            response == (UpdateUserResponse {
                user_id: value.user_id,
                name: value.name,
                balance_in_rs: value.balance_in_rs,
            }),
    {
        Self { user_id: value.user_id, name: value.name, balance_in_rs: value.balance_in_rs }
    }
}

impl GetTransactionResponse {
    /// What is answered for a transfer.
    pub fn from(row: Transaction) -> (response: Self)
        ensures
            response.transaction_id == row.transaction_id,
            response.sender_id == row.sender_id,
            response.receiver_id == row.recipient_id,
            response.amount == row.amount_in_rs,
    {
        let created_at = utils::datetime::render(&row.created_at);
        Self {
            transaction_id: row.transaction_id,
            sender_id: row.sender_id,
            receiver_id: row.recipient_id,
            amount: row.amount_in_rs,
            created_at,
        }
    }
}

impl ApiError {
    /// What a failed lookup of an account is answered with: an absent
    /// account is not found, every other failure is the store's.
    pub open spec fn of_user_lookup(error: UserDbError) -> ApiError {
        match error {
            UserDbError::NotFoundError => ApiError::NotFoundError("user"),
            _ => ApiError::RetrieveDataFailed("users"),
        }
    }

    /// What a failed lookup of an account is answered with.
    pub fn from_user_lookup(error: UserDbError) -> (answer: ApiError)
        ensures
            answer == Self::of_user_lookup(error),
    {
        match error {
            UserDbError::NotFoundError => ApiError::NotFoundError("user"),
            _ => ApiError::RetrieveDataFailed("users"),
        }
    }

    /// What a failed insert of an account is answered with: a taken email
    /// is reported as such, every other failure is the store's.
    pub open spec fn of_user_insert(error: UserDbError) -> ApiError {
        match error {
            UserDbError::DuplicateEmail => ApiError::DuplicateEmail,
            _ => ApiError::DatabaseInsertFailed("users"),
        }
    }

    /// What a failed insert of an account is answered with.
    pub fn from_user_insert(error: UserDbError) -> (answer: ApiError)
        ensures
            answer == Self::of_user_insert(error),
    {
        match error {
            UserDbError::DuplicateEmail => ApiError::DuplicateEmail,
            _ => ApiError::DatabaseInsertFailed("users"),
        }
    }

    /// What a failed update of an account is answered with: an absent
    /// account is not found, every other failure is the store's.
    pub open spec fn of_user_update(error: UserDbError) -> ApiError {
        match error {
            UserDbError::NotFoundError => ApiError::NotFoundError("user"),
            _ => ApiError::DatabaseUpdationFailed("users"),
        }
    }

    /// What a failed update of an account is answered with.
    pub fn from_user_update(error: UserDbError) -> (answer: ApiError)
        ensures
            answer == Self::of_user_update(error),
    {
        match error {
            UserDbError::NotFoundError => ApiError::NotFoundError("user"),
            _ => ApiError::DatabaseUpdationFailed("users"),
        }
    }

    /// What a failed transfer is answered with: an absent account is not
    /// found, a balance below the amount is insufficient funds, and every
    /// other failure is the store's.
    pub open spec fn of_transfer(error: TransactionDbError) -> ApiError {
        match error {
            TransactionDbError::NotFoundError => ApiError::NotFoundError("user"),
            TransactionDbError::InsufficientFunds => ApiError::InsufficientFunds,
            _ => ApiError::TransactionDatabaseError,
        }
    }

    /// What a failed transfer is answered with.
    pub fn from_transfer(error: TransactionDbError) -> (answer: ApiError)
        ensures
            answer == Self::of_transfer(error),
    {
        match error {
            TransactionDbError::NotFoundError => ApiError::NotFoundError("user"),
            TransactionDbError::InsufficientFunds => ApiError::InsufficientFunds,
            _ => ApiError::TransactionDatabaseError,
        }
    }

    /// What a failed lookup of a transfer is answered with: an absent
    /// transfer is not found, every other failure is the store's.
    pub open spec fn of_transaction_lookup(error: TransactionDbError) -> ApiError {
        match error {
            TransactionDbError::NotFoundError => ApiError::NotFoundError("transaction"),
            _ => ApiError::TransactionDatabaseError,
        }
    }

    /// What a failed lookup of a transfer is answered with.
    pub fn from_transaction_lookup(error: TransactionDbError) -> (answer: ApiError)
        ensures
            answer == Self::of_transaction_lookup(error),
    {
        match error {
            TransactionDbError::NotFoundError => ApiError::NotFoundError("transaction"),
            _ => ApiError::TransactionDatabaseError,
        }
    }

}

} // verus!
