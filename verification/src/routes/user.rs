use vstd::prelude::*;

use crate::error::{ApiError, UserDbError};
use crate::routes::api_models::{
    GetUserResponse, LoginRequest, LoginResponse, SignUpRequest, SignUpResponse,
    UpdateUserRequest, UpdateUserResponse,
};
use crate::routes::user::error::UserError;
use crate::routes::user::password::argon2_verdict;
use crate::storage::caching::Caching;
use crate::storage::tables::Tables;
use crate::storage::types::{Transaction, User, UserNew, UserUpdateInternal};
use crate::storage::{Cacheable, UserInterface};
use crate::types::Claims;

pub mod error;
pub mod password;

verus! {

/// What a sign-up is answered with, given what the store answered to the
/// insert: the created account, or the store's failure as
/// [`ApiError::of_user_insert`] classes it.
pub fn signed_up(created: Result<User, UserDbError>) -> (answer: Result<SignUpResponse, ApiError>)
    ensures
        match created {
            Ok(user) => answer matches Ok(response) && {
                &&& response.user_id == user.user_id
                &&& response.name == user.name
                &&& response.email.0 == user.email
            },
            Err(cause) => answer == Err::<SignUpResponse, ApiError>(
                ApiError::of_user_insert(cause),
            ),
        },
{
    match created {
        Ok(user) => Ok(SignUpResponse::from(user)),
        Err(cause) => Err(ApiError::from_user_insert(cause)),
    }
}

/// Inserts an account and answers the sign-up. It fails exactly where the
/// store does not take the account, and then nothing has changed.
pub fn register<T>(db: &mut Caching<T>, new_user: UserNew) -> (answer: Result<
    SignUpResponse,
    ApiError,
>) where
    T: Cacheable<User, Key = String, Value = User> + Cacheable<
        Transaction,
        Key = String,
        Value = Transaction,
    > + UserInterface<Error = UserDbError>,

    ensures
        final(db).users() == old(db).users(),
        final(db).transactions() == old(db).transactions(),
        final(db).user_bounds() == old(db).user_bounds(),
        final(db).transaction_bounds() == old(db).transaction_bounds(),
        match answer {
            Ok(response) => {
                let row = final(db).inner()@.users.last();
                &&& old(db).inner().create_user_failure(new_user) is None
                &&& final(db).inner()@.users == old(db).inner()@.users.push(row)
                &&& final(db).inner()@.transactions == old(db).inner()@.transactions
                &&& row.user_id == new_user.user_id
                &&& row.email == new_user.email
                &&& row.name == new_user.name
                &&& row.password == new_user.password
                &&& row.balance_in_rs == new_user.balance_in_rs
                &&& response.user_id == row.user_id
                &&& response.name == row.name
                &&& response.email.0 == row.email
            },
            Err(error) => {
                &&& final(db).inner()@ == old(db).inner()@
                &&& match old(db).inner().create_user_failure(new_user) {
                    Some(cause) => error == ApiError::of_user_insert(cause),
                    None => false,
                }
            },
        },
{
    let created = db.create_user(new_user);
    signed_up(created)
}

/// Creates an account for a sign-up request. The request is validated
/// first, the password is hashed and the account, under a fresh identifier
/// and without funds, is handed to the store. A request that is refused, a
/// password that cannot be hashed and an account that the store does not
/// take each fail with their own error and leave the store as it was.
pub fn sign_up<T>(db: &mut Caching<T>, new_user_request: SignUpRequest) -> (answer: Result<
    SignUpResponse,
    ApiError,
>) where
    T: Cacheable<User, Key = String, Value = User> + Cacheable<
        Transaction,
        Key = String,
        Value = Transaction,
    > + UserInterface<Error = UserDbError>,

    ensures
        final(db).users() == old(db).users(),
        final(db).transactions() == old(db).transactions(),
        final(db).user_bounds() == old(db).user_bounds(),
        final(db).transaction_bounds() == old(db).transaction_bounds(),
        match answer {
            Ok(response) => {
                let row = final(db).inner()@.users.last();
                &&& new_user_request.is_valid()
                &&& final(db).inner()@.users == old(db).inner()@.users.push(row)
                &&& final(db).inner()@.transactions == old(db).inner()@.transactions
                &&& row.email == new_user_request.email.0
                &&& row.name == new_user_request.name
                &&& row.balance_in_rs == 0
                &&& argon2_verdict(new_user_request.password.0@, row.password@) == Some(true)
                &&& response.user_id == row.user_id
                &&& response.name == row.name
                &&& response.email.0 == row.email
            },
            Err(error) => {
                &&& final(db).inner()@ == old(db).inner()@
                &&& error == ApiError::ValidationError <==> !new_user_request.is_valid()
                &&& new_user_request.is_valid() ==> {
                    ||| error matches ApiError::UnknownError(text) && text@
                        == "Failed to hash password"@
                    ||| exists|user: UserNew|
                        {
                            &&& user.email == new_user_request.email.0
                            &&& user.name == new_user_request.name
                            &&& user.balance_in_rs == 0
                            &&& match #[trigger] old(db).inner().create_user_failure(user) {
                                Some(cause) => error == ApiError::of_user_insert(cause),
                                None => false,
                            }
                        }
                }
            },
        },
{
    if new_user_request.validate().is_err() {
        return Err(ApiError::ValidationError);
    }
    let new_user = match UserNew::try_from(new_user_request) {
        Ok(new_user) => new_user,
        Err(error) => {
            return Err(error);
        },
    };
    register(db, new_user)
}

/// Whether `answer` is what a login request is answered with, given what
/// the store answered to the lookup by email. A failed lookup is answered
/// as [`ApiError::of_user_lookup`] classes it. Against the account that was
/// found the password is checked: a hash that cannot be read and a password
/// that does not match each have their error, and on a match the answer is
/// the claims of the account, unless the expiration cannot be computed.
pub open spec fn login_answer(
    login_request: LoginRequest,
    fetched: Result<User, UserDbError>,
    answer: Result<Claims, ApiError>,
) -> bool {
    match fetched {
        Err(cause) => answer == Err::<Claims, ApiError>(ApiError::of_user_lookup(cause)),
        Ok(user) => match argon2_verdict(login_request.password.0@, user.password@) {
            None => answer == Err::<Claims, ApiError>(
                ApiError::UnknownError("Failed while validating user password"),
            ),
            Some(false) => answer == Err::<Claims, ApiError>(ApiError::IncorrectPassword),
            Some(true) => match answer {
                Ok(claims) => {
                    &&& claims.user_id == user.user_id
                    &&& claims.email == user.email
                    &&& claims.name == user.name
                },
                Err(error) => error matches ApiError::UnknownError(text) && (text@
                    == "Failed to add exp_duration to current system time"@ || text@
                    == "Failed to compute elapsed time"@),
            },
        },
    }
}

/// Answers a login request, given what the store answered to the lookup by
/// email: see [`login_answer`].
pub fn authenticated(login_request: &LoginRequest, fetched: Result<User, UserDbError>) -> (answer:
    Result<Claims, ApiError>)
    ensures
        login_answer(*login_request, fetched, answer),
{
    let user = match fetched {
        Ok(user) => user,
        Err(cause) => {
            return Err(ApiError::from_user_lookup(cause));
        },
    };
    match password::is_correct_password(&login_request.password.0, &user.password) {
        Ok(true) => {},
        Ok(false) => {
            return Err(ApiError::IncorrectPassword);
        },
        Err(_) => {
            return Err(ApiError::UnknownError("Failed while validating user password"));
        },
    }
    Claims::try_from(&user)
}

/// Authenticates a login request and gives the claims of the token to
/// issue. The request is validated, the account is looked up in the store by
/// its email and the password is checked against its credential hash. The
/// account is not found exactly where the store reports it absent; any
/// other failure of the lookup is the store's.
pub fn login<T>(db: &mut Caching<T>, login_request: &LoginRequest) -> (answer: Result<
    Claims,
    ApiError,
>) where
    T: Cacheable<User, Key = String, Value = User> + Cacheable<
        Transaction,
        Key = String,
        Value = Transaction,
    > + UserInterface<Error = UserDbError>,

    ensures
        old(db).same_store_and_bounds(final(db)),
        final(db).transactions() == old(db).transactions(),
        if !login_request.is_valid() {
            &&& answer == Err::<Claims, ApiError>(ApiError::ValidationError)
            &&& final(db).users() == old(db).users()
        } else {
            match old(db).inner().email_lookup_failure(login_request.email.0@) {
                Some(cause) => {
                    &&& answer == Err::<Claims, ApiError>(ApiError::of_user_lookup(cause))
                    &&& final(db).users() == old(db).users()
                },
                None => exists|i: int|
                    {
                        &&& #[trigger] old(db).inner()@.email_at(login_request.email.0@, i)
                        &&& login_answer(
                            *login_request,
                            Ok(old(db).inner()@.users[i]),
                            answer,
                        )
                    },
            }
        },
{
    if login_request.validate().is_err() {
        return Err(ApiError::ValidationError);
    }
    let fetched = db.get_user_by_email(login_request.email.0.as_str());
    proof {
        if fetched is Ok {
            let i = choose|i: int|
                old(db).inner()@.email_at(login_request.email.0@, i) && fetched->Ok_0 == old(db).inner()@.users[i];
            assert(old(db).inner()@.email_at(login_request.email.0@, i));
        }
    }
    authenticated(login_request, fetched)
}

impl LoginResponse {
    /// What is answered to a login, given the outcome of issuing the token
    /// for the claims.
    pub fn issue(claims: Claims, token: Result<String, UserError>) -> (answer: Result<
        LoginResponse,
        ApiError,
    >)
        ensures
            match token {
                Ok(token) => answer == Ok::<LoginResponse, ApiError>(
                    LoginResponse { token, user_id: claims.user_id },
                ),
                Err(_) => answer matches Err(ApiError::UnknownError(text)) && text@
                    == "Failed to generate jwt token for user"@,
            },
    {
        match token {
            Ok(token) => Ok(LoginResponse { token, user_id: claims.user_id }),
            Err(_) => Err(ApiError::UnknownError("Failed to generate jwt token for user")),
        }
    }
}

/// What a request for a profile is answered with, given what the read of
/// the account gave: the profile of the account, or the store's failure as
/// [`ApiError::of_user_lookup`] classes it.
pub fn profile(fetched: Result<User, UserDbError>) -> (answer: Result<GetUserResponse, ApiError>)
    ensures
        match fetched {
            Ok(user) => answer matches Ok(response) && {
                &&& response.user_id == user.user_id
                &&& response.email == user.email
                &&& response.name == user.name
                &&& response.balance_in_rs == user.balance_in_rs
            },
            Err(cause) => answer == Err::<GetUserResponse, ApiError>(
                ApiError::of_user_lookup(cause),
            ),
        },
{
    match fetched {
        Ok(user) => Ok(GetUserResponse::from(user)),
        Err(cause) => Err(ApiError::from_user_lookup(cause)),
    }
}

/// The profile of the bearer: the account that the claims name, from the
/// cache or, on a miss, from the store. It fails only as the store's lookup
/// does: the account is not found exactly where the store reports it absent.
pub fn get_user_profile<T>(db: &mut Caching<T>, user_info: &Claims) -> (answer: Result<
    GetUserResponse,
    ApiError,
>) where
    T: Cacheable<User, Key = String, Value = User> + Cacheable<
        Transaction,
        Key = String,
        Value = Transaction,
    > + UserInterface<Error = UserDbError>,

    ensures
        old(db).same_store_and_bounds(final(db)),
        final(db).transactions() == old(db).transactions(),
        match answer {
            Ok(response) => {
                let key = user_info.user_id@;
                &&& final(db).users().contains_key(key)
                &&& response.user_id == final(db).users()[key].user_id
                &&& response.email == final(db).users()[key].email
                &&& response.name == final(db).users()[key].name
                &&& response.balance_in_rs == final(db).users()[key].balance_in_rs
                &&& final(db).users() == old(db).users() || (exists|i: int|
                    {
                        &&& #[trigger] old(db).inner()@.user_at(key, i)
                        &&& final(db).users() == old(db).users().insert(
                            key,
                            old(db).inner()@.users[i],
                        )
                    })
            },
            Err(error) => {
                &&& final(db).users() == old(db).users()
                &&& match old(db).inner().user_lookup_failure(user_info.user_id@) {
                    Some(cause) => error == ApiError::of_user_lookup(cause),
                    None => false,
                }
            },
        },
{
    let fetched = db.get_user_by_user_id(user_info.user_id.as_str());
    profile(fetched)
}

/// The update that a request asks for, given what the read of the account
/// gave: the request's name and amount, stamped with the current time, or
/// the store's failure as [`ApiError::of_user_lookup`] classes it.
pub fn update_for(update_request: UpdateUserRequest, fetched: Result<User, UserDbError>) -> (update:
    Result<UserUpdateInternal, ApiError>)
    ensures
        match fetched {
            Ok(_) => update matches Ok(update) && {
                &&& update.name == update_request.name
                &&& update.balance_in_rs == update_request.amount
            },
            Err(cause) => update == Err::<UserUpdateInternal, ApiError>(
                ApiError::of_user_lookup(cause),
            ),
        },
{
    match fetched {
        Ok(_) => Ok(UserUpdateInternal::new(update_request.name, update_request.amount)),
        Err(cause) => Err(ApiError::from_user_lookup(cause)),
    }
}

/// What an update is answered with, given what the store answered to it:
/// the account as it is now, or the store's failure as
/// [`ApiError::of_user_update`] classes it.
pub fn updated(outcome: Result<User, UserDbError>) -> (answer: Result<
    UpdateUserResponse,
    ApiError,
>)
    ensures
        match outcome {
            Ok(user) => answer == Ok::<UpdateUserResponse, ApiError>(
                UpdateUserResponse {
                    user_id: user.user_id,
                    name: user.name,
                    balance_in_rs: user.balance_in_rs,
                },
            ),
            Err(cause) => answer == Err::<UpdateUserResponse, ApiError>(
                ApiError::of_user_update(cause),
            ),
        },
{
    match outcome {
        Ok(user) => Ok(UpdateUserResponse::from(user)),
        Err(cause) => Err(ApiError::from_user_update(cause)),
    }
}

/// Updates the name or the balance of the bearer's account. The request is
/// validated, the account is read, and the update goes to the store; the
/// account cache is not refreshed. It fails where the request is refused,
/// where the read fails and where the store does not take the update, each
/// with the error of that failure, and then the store is as it was.
pub fn update_user<T>(
    db: &mut Caching<T>,
    user_info: &Claims,
    update_request: UpdateUserRequest,
) -> (answer: Result<UpdateUserResponse, ApiError>) where
    T: Cacheable<User, Key = String, Value = User> + Cacheable<
        Transaction,
        Key = String,
        Value = Transaction,
    > + UserInterface<Error = UserDbError>,

    ensures
        final(db).transactions() == old(db).transactions(),
        final(db).inner()@.transactions == old(db).inner()@.transactions,
        final(db).user_bounds() == old(db).user_bounds(),
        final(db).transaction_bounds() == old(db).transaction_bounds(),
        match answer {
            Ok(response) => {
                &&& update_request.refusal() is None
                &&& exists|i: int, update: UserUpdateInternal|
                    {
                        &&& 0 <= i < old(db).inner()@.users.len()
                        &&& update.name == update_request.name
                        &&& update.balance_in_rs == update_request.amount
                        &&& old(db).inner().update_user_failure(user_info.user_id@, update)
                            is None
                        &&& final(db).inner()@.users == old(db).inner()@.users.update(
                            i,
                            final(db).inner()@.users[i],
                        )
                        &&& final(db).inner()@.users[i] == #[trigger] Tables::updated_row(
                            old(db).inner()@.users[i],
                            update,
                        )
                        &&& response == (UpdateUserResponse {
                            user_id: final(db).inner()@.users[i].user_id,
                            name: final(db).inner()@.users[i].name,
                            balance_in_rs: final(db).inner()@.users[i].balance_in_rs,
                        })
                    }
            },
            Err(error) => {
                &&& final(db).inner()@ == old(db).inner()@
                &&& error == ApiError::ValidationError <==> update_request.refusal() is Some
                &&& update_request.refusal() is None ==> {
                    ||| match old(db).inner().user_lookup_failure(user_info.user_id@) {
                        Some(cause) => error == ApiError::of_user_lookup(cause),
                        None => false,
                    }
                    ||| exists|update: UserUpdateInternal|
                        {
                            &&& update.name == update_request.name
                            &&& update.balance_in_rs == update_request.amount
                            &&& match #[trigger] old(db).inner().update_user_failure(
                                user_info.user_id@,
                                update,
                            ) {
                                Some(cause) => error == ApiError::of_user_update(cause),
                                None => false,
                            }
                        }
                }
            },
        },
{
    if update_request.validate().is_err() {
        return Err(ApiError::ValidationError);
    }
    let fetched = db.get_user_by_user_id(user_info.user_id.as_str());
    let update = match update_for(update_request, fetched) {
        Ok(update) => update,
        Err(error) => {
            return Err(error);
        },
    };
    let ghost before = db.inner()@;
    let ghost store = db.inner();
    let outcome = db.update_user(user_info.user_id.as_str(), update);
    proof {
        assert(store == old(db).inner());
        if outcome is Ok {
            let i = choose|i: int|
                {
                    &&& #[trigger] before.user_at(user_info.user_id@, i)
                    &&& Tables::accepts_update(update)
                    &&& outcome->Ok_0 == Tables::updated_row(before.users[i], update)
                    &&& db.inner()@ == (Tables {
                        users: before.users.update(i, outcome->Ok_0),
                        ..before
                    })
                };
            assert(db.inner()@.users[i] == outcome->Ok_0);
        }
    }
    updated(outcome)
}

} // verus!
