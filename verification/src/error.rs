use vstd::prelude::*;
use vstd::string::StringExecFns;

verus! {

/// Failures while a request body is checked.
#[allow(inconsistent_fields)]
#[derive(Debug, Clone, PartialEq)]
pub enum ValidationError {
    /// A required field is absent.
    MissingRequiredField { field_name: String },
    /// A field holds a value that is not accepted.
    IncorrectValueProvided { field_name: &'static str },
    /// A value is malformed or out of range; the message says how.
    InvalidValue { message: String },
}

impl ValidationError {
    /// The text shown for this error.
    pub open spec fn message_spec(self) -> Seq<char> {
        match self {
            ValidationError::MissingRequiredField { field_name } => "Missing required field: "@
                + field_name@,
            ValidationError::IncorrectValueProvided {
                field_name,
            } => "Incorrect value provided for field: "@ + field_name@,
            ValidationError::InvalidValue { message } => message@,
        }
    }

    /// Whether this is an `InvalidValue` with the message `text`.
    pub open spec fn is_invalid_value(self, text: Seq<char>) -> bool {
        self matches ValidationError::InvalidValue { message } && message@ == text
    }

    /// Whether this is an `IncorrectValueProvided` for the field `name`.
    pub open spec fn is_incorrect_value(self, name: Seq<char>) -> bool {
        self matches ValidationError::IncorrectValueProvided { field_name } && field_name@ == name
    }

    /// An `InvalidValue` that carries `text`.
    pub fn invalid_value(text: &str) -> (error: Self)
        ensures
            error matches ValidationError::InvalidValue { message } && message@ == text@,
    {
        ValidationError::InvalidValue { message: String::from_str(text) }
    }

    /// Renders the error.
    pub fn message(&self) -> (text: String)
        ensures
            text@ == self.message_spec(),
    {
        match self {
            ValidationError::MissingRequiredField { field_name } => {
                String::from_str("Missing required field: ").concat(field_name.as_str())
            },
            ValidationError::IncorrectValueProvided { field_name } => {
                String::from_str("Incorrect value provided for field: ").concat(field_name)
            },
            ValidationError::InvalidValue { message } => message.clone(),
        }
    }
}

/// Failures of the store itself, below any one table.
#[derive(Debug, Clone, Copy, PartialEq, Eq, Structural)]
pub enum StorageError {
    /// The connection pool could not be built.
    DBPoolError,
    /// No connection could be checked out of the pool.
    PoolClientFailure,
    /// A lookup failed.
    FindError,
    /// An insert failed.
    InsertError,
    /// A delete failed.
    DeleteError,
    /// The element is not in the store.
    NotFoundError,
}

impl StorageError {
    /// The text shown for this error.
    pub open spec fn message_spec(self) -> Seq<char> {
        match self {
            StorageError::DBPoolError => "failed to construct database pool"@,
            StorageError::PoolClientFailure => "failed to construct database pool"@,
            StorageError::FindError => "Error while finding element in database"@,
            StorageError::InsertError => "Error while inserting data in database"@,
            StorageError::DeleteError => "Error while deleting data in database"@,
            StorageError::NotFoundError => "Element not found in storage"@,
        }
    }

    /// Renders the error.
    pub fn message(&self) -> (text: &'static str)
        ensures
            text@ == self.message_spec(),
    {
        match self {
            StorageError::DBPoolError => "failed to construct database pool",
            StorageError::PoolClientFailure => "failed to construct database pool",
            StorageError::FindError => "Error while finding element in database",
            StorageError::InsertError => "Error while inserting data in database",
            StorageError::DeleteError => "Error while deleting data in database",
            StorageError::NotFoundError => "Element not found in storage",
        }
    }
}

/// Failures of the account table.
#[derive(Debug, Clone, Copy, PartialEq, Eq, Structural)]
pub enum UserDbError {
    /// The store could not be reached.
    DBError,
    /// A lookup failed for another reason than absence.
    DBFilterError,
    /// The account could not be inserted.
    DBInsertError,
    /// The account could not be updated.
    DBUpdateError,
    /// Anything else.
    UnknownError,
    /// No such account.
    NotFoundError,
    /// Another account has the email already.
    DuplicateEmail,
}

impl UserDbError {
    /// The text shown for this error.
    pub open spec fn message_spec(self) -> Seq<char> {
        match self {
            UserDbError::DBError => "Error while connecting to database"@,
            UserDbError::DBFilterError => "Error while finding user record in the database"@,
            UserDbError::DBInsertError => "Error while inserting user record in the database"@,
            UserDbError::DBUpdateError => "Error while updating user record in the database"@,
            UserDbError::UnknownError => "Unpredictable error occurred"@,
            UserDbError::NotFoundError => "Element not found in storage"@,
            UserDbError::DuplicateEmail => "An account with this email exists already"@,
        }
    }

    /// Renders the error.
    pub fn message(&self) -> (text: &'static str)
        ensures
            text@ == self.message_spec(),
    {
        match self {
            UserDbError::DBError => "Error while connecting to database",
            UserDbError::DBFilterError => "Error while finding user record in the database",
            UserDbError::DBInsertError => "Error while inserting user record in the database",
            UserDbError::DBUpdateError => "Error while updating user record in the database",
            UserDbError::UnknownError => "Unpredictable error occurred",
            UserDbError::NotFoundError => "Element not found in storage",
            UserDbError::DuplicateEmail => "An account with this email exists already",
        }
    }
}

/// Failures of the ledger table and of a transfer.
#[derive(Debug, Clone, Copy, PartialEq, Eq, Structural)]
pub enum TransactionDbError {
    /// The store could not be reached.
    DBError,
    /// A lookup failed for another reason than absence.
    DBFilterError,
    /// The ledger record could not be inserted.
    DBInsertError,
    /// A balance could not be updated.
    DBUpdateError,
    /// Anything else.
    UnknownError,
    /// No such transfer, or no such account on either side of one.
    NotFoundError,
    /// The sender's balance is smaller than the amount.
    InsufficientFunds,
}

impl TransactionDbError {
    /// The text shown for this error.
    pub open spec fn message_spec(self) -> Seq<char> {
        match self {
            TransactionDbError::DBError => "Error while connecting to database"@,
            TransactionDbError::DBFilterError => "Error while finding transaction record in the database"@,
            TransactionDbError::DBInsertError => "Error while inserting transaction record in the database"@,
            TransactionDbError::DBUpdateError => "Error while updating transaction record in the database"@,
            TransactionDbError::UnknownError => "Unpredictable error occurred"@,
            TransactionDbError::NotFoundError => "Element not found in storage"@,
            TransactionDbError::InsufficientFunds => "Sender balance is smaller than the amount"@,
        }
    }

    /// Renders the error.
    pub fn message(&self) -> (text: &'static str)
        ensures
            text@ == self.message_spec(),
    {
        match self {
            TransactionDbError::DBError => "Error while connecting to database",
            TransactionDbError::DBFilterError => "Error while finding transaction record in the database",
            TransactionDbError::DBInsertError => "Error while inserting transaction record in the database",
            TransactionDbError::DBUpdateError => "Error while updating transaction record in the database",
            TransactionDbError::UnknownError => "Unpredictable error occurred",
            TransactionDbError::NotFoundError => "Element not found in storage",
            TransactionDbError::InsufficientFunds => "Sender balance is smaller than the amount",
        }
    }
}

/// What a request handler answers when it fails.
#[derive(Debug, Clone, Copy, PartialEq)]
pub enum ApiError {
    /// Stored data could not be read.
    RetrieveDataFailed(&'static str),
    /// A value could not be encoded.
    EncodingError,
    /// A value could not be decoded.
    DecodingError,
    /// An insert into the named table failed.
    DatabaseInsertFailed(&'static str),
    /// A delete from the named table failed.
    DatabaseDeleteFailed(&'static str),
    /// An update of the named table failed.
    DatabaseUpdationFailed(&'static str),
    /// Anything else; the text says what.
    UnknownError(&'static str),
    /// The store could not be reached.
    DatabaseError,
    /// A transfer failed inside the store.
    TransactionDatabaseError,
    /// The request body was refused.
    ValidationError,
    /// The sender cannot cover the amount.
    InsufficientFunds,
    /// Another account has the email already.
    DuplicateEmail,
    /// The password does not match.
    IncorrectPassword,
    /// The named resource does not exist.
    NotFoundError(&'static str),
    /// The caller presented no valid token.
    UnAuthenticated,
    /// A header is missing or malformed.
    HeadersError(&'static str),
}

/// Processing error.
pub const TE_00: &'static str = "TE_00";

/// Database error.
pub const TE_01: &'static str = "TE_01";

/// Resource not found.
pub const TE_02: &'static str = "TE_02";

/// Validation error.
pub const TE_03: &'static str = "TE_03";

/// The class of answer an error is given.
#[derive(Debug, Clone, Copy, PartialEq, Eq, Structural)]
pub enum ResponseClass {
    /// 400
    BadRequest,
    /// 401
    Unauthorized,
    /// 404
    NotFound,
    /// 500
    InternalError,
}

impl ResponseClass {
    /// The HTTP status of the class.
    pub open spec fn status_spec(self) -> u16 {
        match self {
            ResponseClass::BadRequest => 400,
            ResponseClass::Unauthorized => 401,
            ResponseClass::NotFound => 404,
            ResponseClass::InternalError => 500,
        }
    }

    /// The HTTP status of the class.
    pub fn status(self) -> (code: u16)
        ensures
            code == self.status_spec(),
    {
        match self {
            ResponseClass::BadRequest => 400,
            ResponseClass::Unauthorized => 401,
            ResponseClass::NotFound => 404,
            ResponseClass::InternalError => 500,
        }
    }
}

/// The body of a failed request's answer. Only the classification and the
/// rendered message are in it.
#[derive(Debug, Clone, PartialEq)]
pub struct ApiErrorResponse {
    /// One of the `TE_` codes.
    pub code: &'static str,
    /// The rendered error.
    pub message: String,
}

impl ApiError {
    /// The class of answer: authentication failures are unauthorized,
    /// refused input and business-rule rejections are bad requests, absent
    /// resources are not found, everything else is an internal error.
    pub open spec fn class_spec(self) -> ResponseClass {
        match self {
            ApiError::IncorrectPassword | ApiError::UnAuthenticated => ResponseClass::Unauthorized,
            ApiError::DecodingError
            | ApiError::ValidationError
            | ApiError::InsufficientFunds
            | ApiError::DuplicateEmail
            | ApiError::HeadersError(_) => ResponseClass::BadRequest,
            ApiError::NotFoundError(_) => ResponseClass::NotFound,
            _ => ResponseClass::InternalError,
        }
    }

    /// The error code of the answer.
    pub open spec fn code_spec(self) -> Seq<char> {
        match self {
            ApiError::IncorrectPassword
            | ApiError::UnAuthenticated
            | ApiError::EncodingError
            | ApiError::UnknownError(_) => TE_00@,
            ApiError::DatabaseInsertFailed(_)
            | ApiError::DatabaseError
            | ApiError::DatabaseDeleteFailed(_)
            | ApiError::DatabaseUpdationFailed(_)
            | ApiError::TransactionDatabaseError
            | ApiError::RetrieveDataFailed(_) => TE_01@,
            ApiError::NotFoundError(_) => TE_02@,
            ApiError::DecodingError
            | ApiError::ValidationError
            | ApiError::InsufficientFunds
            | ApiError::DuplicateEmail
            | ApiError::HeadersError(_) => TE_03@,
        }
    }

    /// The text shown for this error.
    pub open spec fn message_spec(self) -> Seq<char> {
        match self {
            ApiError::RetrieveDataFailed(_) => "failed while retrieving stored data"@,
            ApiError::EncodingError => "Error while encoding data"@,
            ApiError::DecodingError => "Failed while decoding data"@,
            ApiError::DatabaseInsertFailed(table) => "Failed while inserting data into "@ + table@,
            ApiError::DatabaseDeleteFailed(table) => "failed while deleting data from "@ + table@,
            ApiError::DatabaseUpdationFailed(table) => "Failed while updating data in "@ + table@,
            ApiError::UnknownError(what) => "Something went wrong: "@ + what@,
            ApiError::DatabaseError => "Failed while connecting to database"@,
            ApiError::TransactionDatabaseError => "Failed while processing the transaction"@,
            ApiError::ValidationError => "Failed while validating request"@,
            ApiError::InsufficientFunds => "Insufficient funds"@,
            ApiError::DuplicateEmail => "An account with this email exists already"@,
            ApiError::IncorrectPassword => "Incorrect password"@,
            ApiError::NotFoundError(what) => "Requested resource not found: "@ + what@,
            ApiError::UnAuthenticated => "The request source is un-authenticated"@,
            ApiError::HeadersError(what) => "Failed to parse headers: "@ + what@,
        }
    }

    /// The class of answer this error is given.
    pub fn class(&self) -> (class: ResponseClass)
        ensures
            class == self.class_spec(),
    {
        match self {
            ApiError::IncorrectPassword | ApiError::UnAuthenticated => ResponseClass::Unauthorized,
            ApiError::DecodingError
            | ApiError::ValidationError
            | ApiError::InsufficientFunds
            | ApiError::DuplicateEmail
            | ApiError::HeadersError(_) => ResponseClass::BadRequest,
            ApiError::NotFoundError(_) => ResponseClass::NotFound,
            _ => ResponseClass::InternalError,
        }
    }

    /// The error code of the answer.
    pub fn code(&self) -> (code: &'static str)
        ensures
            code@ == self.code_spec(),
    {
        match self {
            ApiError::IncorrectPassword
            | ApiError::UnAuthenticated
            | ApiError::EncodingError
            | ApiError::UnknownError(_) => TE_00,
            ApiError::DatabaseInsertFailed(_)
            | ApiError::DatabaseError
            | ApiError::DatabaseDeleteFailed(_)
            | ApiError::DatabaseUpdationFailed(_)
            | ApiError::TransactionDatabaseError
            | ApiError::RetrieveDataFailed(_) => TE_01,
            ApiError::NotFoundError(_) => TE_02,
            ApiError::DecodingError
            | ApiError::ValidationError
            | ApiError::InsufficientFunds
            | ApiError::DuplicateEmail
            | ApiError::HeadersError(_) => TE_03,
        }
    }

    /// Renders the error.
    pub fn message(&self) -> (text: String)
        ensures
            text@ == self.message_spec(),
    {
        match self {
            ApiError::RetrieveDataFailed(_) => String::from_str(
                "failed while retrieving stored data",
            ),
            ApiError::EncodingError => String::from_str("Error while encoding data"),
            ApiError::DecodingError => String::from_str("Failed while decoding data"),
            ApiError::DatabaseInsertFailed(table) => String::from_str(
                "Failed while inserting data into ",
            ).concat(table),
            ApiError::DatabaseDeleteFailed(table) => String::from_str(
                "failed while deleting data from ",
            ).concat(table),
            ApiError::DatabaseUpdationFailed(table) => String::from_str(
                "Failed while updating data in ",
            ).concat(table),
            ApiError::UnknownError(what) => String::from_str("Something went wrong: ").concat(what),
            ApiError::DatabaseError => String::from_str("Failed while connecting to database"),
            ApiError::TransactionDatabaseError => String::from_str(
                "Failed while processing the transaction",
            ),
            ApiError::ValidationError => String::from_str("Failed while validating request"),
            ApiError::InsufficientFunds => String::from_str("Insufficient funds"),
            ApiError::DuplicateEmail => String::from_str(
                "An account with this email exists already",
            ),
            ApiError::IncorrectPassword => String::from_str("Incorrect password"),
            ApiError::NotFoundError(what) => String::from_str(
                "Requested resource not found: ",
            ).concat(what),
            ApiError::UnAuthenticated => String::from_str("The request source is un-authenticated"),
            ApiError::HeadersError(what) => String::from_str("Failed to parse headers: ").concat(
                what,
            ),
        }
    }

    /// The answer to a failed request: its HTTP status and its body. The body
    /// carries the classification and the rendered message, never the cause.
    pub fn into_response(self) -> (response: (u16, ApiErrorResponse))
        ensures
            response.0 == self.class_spec().status_spec(),
            response.1.code@ == self.code_spec(),
            response.1.message@ == self.message_spec(),
    {
        let status = self.class().status();
        (status, ApiErrorResponse { code: self.code(), message: self.message() })
    }
}

/// The four classes map to four distinct statuses, and an error's code and
/// status agree on whether the resource was found or the input refused.
pub proof fn lemma_code_follows_class(error: ApiError)
    ensures
        error.class_spec() == ResponseClass::NotFound <==> error.code_spec() == TE_02@,
        error.class_spec() == ResponseClass::BadRequest <==> error.code_spec() == TE_03@,
        error.class_spec() == ResponseClass::Unauthorized ==> error.code_spec() == TE_00@,
        error.code_spec() == TE_01@ ==> error.class_spec() == ResponseClass::InternalError,
{
    reveal_strlit("TE_00");
    reveal_strlit("TE_01");
    reveal_strlit("TE_02");
    reveal_strlit("TE_03");
    assert(TE_00@.len() == 5 && TE_00@[4] == '0');
    assert(TE_01@.len() == 5 && TE_01@[4] == '1');
    assert(TE_02@.len() == 5 && TE_02@[4] == '2');
    assert(TE_03@.len() == 5 && TE_03@[4] == '3');
}

} // verus!
