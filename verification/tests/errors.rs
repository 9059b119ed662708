use dodopayments::error::{
    ApiError, ResponseClass, StorageError, TransactionDbError, UserDbError, TE_00, TE_01, TE_02,
    TE_03,
};
use dodopayments::routes::user::error::UserError;

#[test]
fn authentication_failures_are_unauthorized() {
    for error in [ApiError::IncorrectPassword, ApiError::UnAuthenticated] {
        let (status, body) = error.into_response();
        assert_eq!(status, 401);
        assert_eq!(body.code, "TE_00");
    }
    let (_, body) = ApiError::IncorrectPassword.into_response();
    assert_eq!(body.message, "Incorrect password");
    let (_, body) = ApiError::UnAuthenticated.into_response();
    assert_eq!(body.message, "The request source is un-authenticated");
}

#[test]
fn refused_input_is_a_bad_request() {
    let cases = [
        (ApiError::DecodingError, "Failed while decoding data"),
        (ApiError::ValidationError, "Failed while validating request"),
        (ApiError::HeadersError("JWT key"), "Failed to parse headers: JWT key"),
        (ApiError::InsufficientFunds, "Insufficient funds"),
        (ApiError::DuplicateEmail, "An account with this email exists already"),
    ];
    for (error, message) in cases {
        let (status, body) = error.into_response();
        assert_eq!(status, 400);
        assert_eq!(body.code, "TE_03");
        assert_eq!(body.message, message);
    }
}

#[test]
fn absent_resource_is_not_found() {
    let (status, body) = ApiError::NotFoundError("user").into_response();
    assert_eq!(status, 404);
    assert_eq!(body.code, "TE_02");
    assert_eq!(body.message, "Requested resource not found: user");
}

#[test]
fn store_failures_are_internal_errors() {
    let cases = [
        (ApiError::DatabaseInsertFailed("users"), "Failed while inserting data into users"),
        (ApiError::DatabaseDeleteFailed("users"), "failed while deleting data from users"),
        (ApiError::DatabaseUpdationFailed("users"), "Failed while updating data in users"),
        (ApiError::RetrieveDataFailed("users"), "failed while retrieving stored data"),
        (ApiError::DatabaseError, "Failed while connecting to database"),
        (ApiError::TransactionDatabaseError, "Failed while processing the transaction"),
    ];
    for (error, message) in cases {
        let (status, body) = error.into_response();
        assert_eq!(status, 500);
        assert_eq!(body.code, "TE_01");
        assert_eq!(body.message, message);
    }
}

#[test]
fn processing_failures_are_internal_errors() {
    let cases = [
        (ApiError::EncodingError, "Error while encoding data"),
        (ApiError::UnknownError("disk on fire"), "Something went wrong: disk on fire"),
    ];
    for (error, message) in cases {
        let (status, body) = error.into_response();
        assert_eq!(status, 500);
        assert_eq!(body.code, "TE_00");
        assert_eq!(body.message, message);
    }
}

#[test]
fn response_classes_have_their_status() {
    assert_eq!(ResponseClass::BadRequest.status(), 400);
    assert_eq!(ResponseClass::Unauthorized.status(), 401);
    assert_eq!(ResponseClass::NotFound.status(), 404);
    assert_eq!(ResponseClass::InternalError.status(), 500);
    assert_eq!(ApiError::InsufficientFunds.class(), ResponseClass::BadRequest);
    assert_eq!(ApiError::NotFoundError("x").class(), ResponseClass::NotFound);
    assert_eq!(ApiError::UnAuthenticated.class(), ResponseClass::Unauthorized);
    assert_eq!(ApiError::DatabaseError.class(), ResponseClass::InternalError);
    assert_eq!((TE_00, TE_01, TE_02, TE_03), ("TE_00", "TE_01", "TE_02", "TE_03"));
    assert_eq!(ApiError::DatabaseError.code(), TE_01);
}

#[test]
fn failed_transfer_is_classified() {
    assert_eq!(
        ApiError::from_transfer(TransactionDbError::NotFoundError),
        ApiError::NotFoundError("user")
    );
    assert_eq!(
        ApiError::from_transfer(TransactionDbError::InsufficientFunds),
        ApiError::InsufficientFunds
    );
    for cause in [
        TransactionDbError::DBError,
        TransactionDbError::DBFilterError,
        TransactionDbError::DBInsertError,
        TransactionDbError::DBUpdateError,
        TransactionDbError::UnknownError,
    ] {
        assert_eq!(ApiError::from_transfer(cause), ApiError::TransactionDatabaseError);
    }
    assert_eq!(
        ApiError::from_transaction_lookup(TransactionDbError::NotFoundError),
        ApiError::NotFoundError("transaction")
    );
    assert_eq!(
        ApiError::from_transaction_lookup(TransactionDbError::InsufficientFunds),
        ApiError::TransactionDatabaseError
    );
}

#[test]
fn store_errors_render_their_message() {
    assert_eq!(StorageError::DBPoolError.message(), "failed to construct database pool");
    assert_eq!(StorageError::PoolClientFailure.message(), "failed to construct database pool");
    assert_eq!(StorageError::FindError.message(), "Error while finding element in database");
    assert_eq!(StorageError::InsertError.message(), "Error while inserting data in database");
    assert_eq!(StorageError::DeleteError.message(), "Error while deleting data in database");
    assert_eq!(StorageError::NotFoundError.message(), "Element not found in storage");
    assert_eq!(UserDbError::DBError.message(), "Error while connecting to database");
    assert_eq!(
        UserDbError::DBFilterError.message(),
        "Error while finding user record in the database"
    );
    assert_eq!(
        UserDbError::DBInsertError.message(),
        "Error while inserting user record in the database"
    );
    assert_eq!(
        UserDbError::DBUpdateError.message(),
        "Error while updating user record in the database"
    );
    assert_eq!(UserDbError::UnknownError.message(), "Unpredictable error occurred");
    assert_eq!(UserDbError::NotFoundError.message(), "Element not found in storage");
    assert_eq!(
        TransactionDbError::DBInsertError.message(),
        "Error while inserting transaction record in the database"
    );
    assert_eq!(
        TransactionDbError::DBFilterError.message(),
        "Error while finding transaction record in the database"
    );
    assert_eq!(
        TransactionDbError::DBUpdateError.message(),
        "Error while updating transaction record in the database"
    );
    assert_eq!(TransactionDbError::NotFoundError.message(), "Element not found in storage");
}

#[test]
fn user_errors_render_their_message() {
    assert_eq!(UserError::InternalServerError.message(), "User InternalServerError");
    assert_eq!(UserError::UserNotFound.message(), "User not found");
    assert_eq!(UserError::UserAlreadyExists.message(), "User already exists");
    assert_eq!(UserError::InvalidCredentials.message(), "Invalid credentials");
    assert_eq!(UserError::InvalidToken.message(), "Invalid token");
    assert_eq!(UserError::TokenExpired.message(), "Token expired");
}

#[test]
fn failed_account_operations_are_classified() {
    assert_eq!(
        ApiError::from_user_lookup(UserDbError::NotFoundError),
        ApiError::NotFoundError("user")
    );
    assert_eq!(
        ApiError::from_user_insert(UserDbError::DuplicateEmail),
        ApiError::DuplicateEmail
    );
    assert_eq!(
        ApiError::from_user_update(UserDbError::NotFoundError),
        ApiError::NotFoundError("user")
    );
    for cause in [
        UserDbError::DBError,
        UserDbError::DBFilterError,
        UserDbError::DBInsertError,
        UserDbError::DBUpdateError,
        UserDbError::UnknownError,
    ] {
        assert_eq!(ApiError::from_user_lookup(cause), ApiError::RetrieveDataFailed("users"));
        assert_eq!(ApiError::from_user_insert(cause), ApiError::DatabaseInsertFailed("users"));
        assert_eq!(ApiError::from_user_update(cause), ApiError::DatabaseUpdationFailed("users"));
    }
    assert_eq!(
        ApiError::from_user_lookup(UserDbError::DuplicateEmail),
        ApiError::RetrieveDataFailed("users")
    );
    assert_eq!(
        ApiError::from_user_insert(UserDbError::NotFoundError),
        ApiError::DatabaseInsertFailed("users")
    );
}
