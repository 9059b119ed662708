use vstd::prelude::*;

use crate::error::ValidationError;
use crate::types::{email_refusal, email_search, Email, Password, PasswordTraits};

verus! {

/// The sign-up request body.
#[derive(Debug, Clone)]
pub struct SignUpRequest {
    pub name: String,
    pub email: Email,
    pub password: Password,
}

impl SignUpRequest {
    /// Whether the request is accepted: the email and the password are, and
    /// the name is not empty.
    pub open spec fn is_valid(self) -> bool {
        &&& email_refusal(self.email.0@.len(), email_search(self.email.0@)) is None
        &&& PasswordTraits::of(self.password.0@).acceptable()
        &&& self.name@.len() > 0
    }

    /// Validates the sign-up request: the email first, then the password,
    /// then the name, which must not be empty. The first failure is
    /// reported.
    pub fn validate(&self) -> (verdict: Result<(), ValidationError>)
        ensures
            verdict is Ok <==> self.is_valid(),
            match verdict {
                Ok(()) => true,
                Err(error) => match email_refusal(
                    self.email.0@.len(),
                    email_search(self.email.0@),
                ) {
                    Some(message) => error.is_invalid_value(message),
                    None => if !PasswordTraits::of(self.password.0@).acceptable() {
                        error.is_incorrect_value("password"@)
                    } else {
                        self.name@.len() == 0 && error.is_invalid_value("Name cannot be empty"@)
                    },
                },
            },
    {
        match self.email.validate() {
            Ok(()) => {},
            Err(error) => {
                return Err(error);
            },
        }
        match self.password.validate() {
            Ok(()) => {},
            Err(error) => {
                return Err(error);
            },
        }
        if self.name.as_str().is_empty() {
            return Err(ValidationError::invalid_value("Name cannot be empty"));
        }
        Ok(())
    }
}

/// The sign-up response body.
#[derive(Debug, Clone, Default)]
pub struct SignUpResponse {
    pub user_id: String,
    pub name: String,
    pub email: Email,
    pub created_at: String,
}

/// The login request body.
#[derive(Debug)]
pub struct LoginRequest {
    pub email: Email,
    pub password: Password,
}

impl LoginRequest {
    /// Whether the request is accepted: the email and the password are.
    pub open spec fn is_valid(self) -> bool {
        &&& email_refusal(self.email.0@.len(), email_search(self.email.0@)) is None
        &&& PasswordTraits::of(self.password.0@).acceptable()
    }

    /// Validates the login request: the email first, then the password. The
    /// first failure is reported.
    pub fn validate(&self) -> (verdict: Result<(), ValidationError>)
        ensures
            verdict is Ok <==> self.is_valid(),
            match verdict {
                Ok(()) => true,
                Err(error) => match email_refusal(
                    self.email.0@.len(),
                    email_search(self.email.0@),
                ) {
                    Some(message) => error.is_invalid_value(message),
                    None => !PasswordTraits::of(self.password.0@).acceptable()
                        && error.is_incorrect_value("password"@),
                },
            },
    {
        match self.email.validate() {
            Ok(()) => {},
            Err(error) => {
                return Err(error);
            },
        }
        self.password.validate()
    }
}

/// The login response body.
#[derive(Debug, Default)]
pub struct LoginResponse {
    pub token: String,
    pub user_id: String,
}

/// The get user response body.
#[derive(Debug, Default)]
pub struct GetUserResponse {
    pub user_id: String,
    pub email: String,
    pub name: String,
    /// The balance in minor units.
    pub balance_in_rs: i64,
    pub created_at: String,
    pub last_modified_at: String,
}

/// The update user request body.
#[derive(Debug, Default)]
pub struct UpdateUserRequest {
    pub name: Option<String>,
    /// The new balance in minor units.
    pub amount: Option<i64>,
}

impl UpdateUserRequest {
    /// Why the request is refused, if it is: it names neither field, or else
    /// a negative amount, or else an empty name.
    pub open spec fn refusal(self) -> Option<Seq<char>> {
        if self.name is None && self.amount is None {
            Some("At least one of name or amount must be provided for update"@)
        } else if self.amount matches Some(amount) && amount < 0 {
            Some("Amount cannot be negative"@)
        } else if self.name matches Some(name) && name@.len() == 0 {
            Some("Name cannot be empty"@)
        } else {
            None
        }
    }

    /// Validates the update user request.
    pub fn validate(&self) -> (verdict: Result<(), ValidationError>)
        ensures
            match verdict {
                Ok(()) => self.refusal() is None,
                Err(error) => self.refusal() matches Some(message) && error.is_invalid_value(
                    message,
                ),
            },
    {
        if self.name.is_none() && self.amount.is_none() {
            return Err(
                ValidationError::invalid_value(
                    "At least one of name or amount must be provided for update",
                ),
            );
        }
        if let Some(amount) = self.amount {
            if amount < 0 {
                return Err(ValidationError::invalid_value("Amount cannot be negative"));
            }
        }
        if let Some(name) = &self.name {
            if name.as_str().is_empty() {
                return Err(ValidationError::invalid_value("Name cannot be empty"));
            }
        }
        Ok(())
    }
}

/// The update user response body.
#[derive(Debug, Default)]
pub struct UpdateUserResponse {
    pub user_id: String,
    pub name: String,
    /// The balance in minor units.
    pub balance_in_rs: i64,
}

/// The create transaction request body.
#[derive(Debug, Clone)]
pub struct CreateTransactionRequest {
    pub sender_id: String,
    pub receiver_id: String,
    /// The amount in minor units.
    pub amount: i64,
}

impl CreateTransactionRequest {
    /// Why the request is refused, if it is: the sender is not named, or
    /// else the receiver is not, or else the amount is not positive.
    pub open spec fn refusal(self) -> Option<Seq<char>> {
        if self.sender_id@.len() == 0 {
            Some("Sender ID cannot be empty"@)
        } else if self.receiver_id@.len() == 0 {
            Some("Receiver ID cannot be empty"@)
        } else if self.amount <= 0 {
            Some("Amount must be greater than zero"@)
        } else {
            None
        }
    }

    /// Validates the create transaction request.
    pub fn validate(&self) -> (verdict: Result<(), ValidationError>)
        ensures
            match verdict {
                Ok(()) => self.refusal() is None,
                Err(error) => self.refusal() matches Some(message) && error.is_invalid_value(
                    message,
                ),
            },
    {
        if self.sender_id.as_str().is_empty() {
            return Err(ValidationError::invalid_value("Sender ID cannot be empty"));
        }
        if self.receiver_id.as_str().is_empty() {
            return Err(ValidationError::invalid_value("Receiver ID cannot be empty"));
        }
        if self.amount <= 0 {
            return Err(ValidationError::invalid_value("Amount must be greater than zero"));
        }
        Ok(())
    }
}

/// The get transaction response body.
#[derive(Debug, Clone, Default)]
pub struct GetTransactionResponse {
    pub transaction_id: String,
    pub sender_id: String,
    pub receiver_id: String,
    /// The amount in minor units.
    pub amount: i64,
    pub created_at: String,
}

/// The list transactions request query parameters.
#[derive(Debug, Clone, Copy)]
pub struct ListTransactionsRequest {
    /// The page, from 1; 1 where absent.
    pub page: Option<u64>,
    /// The number of transfers on a page; 10 where absent.
    pub page_size: Option<u64>,
}

impl ListTransactionsRequest {
    /// The page asked for.
    pub open spec fn page_spec(self) -> u64 {
        match self.page {
            Some(page) => page,
            None => 1,
        }
    }

    /// The page size asked for.
    pub open spec fn page_size_spec(self) -> u64 {
        match self.page_size {
            Some(size) => size,
            None => 10,
        }
    }

    /// The page asked for: the first where none is named.
    pub fn page(&self) -> (page: u64)
        ensures
            page == self.page_spec(),
    {
        match self.page {
            Some(page) => page,
            None => 1,
        }
    }

    /// The page size asked for: 10 where none is named.
    pub fn page_size(&self) -> (size: u64)
        ensures
            size == self.page_size_spec(),
    {
        match self.page_size {
            Some(size) => size,
            None => 10,
        }
    }
}

/// The list transactions response body.
#[derive(Debug, Clone, Default)]
pub struct ListTransactionsResponse {
    pub transactions: Vec<GetTransactionResponse>,
    pub total_count: u64,
    pub page: u64,
    pub page_size: u64,
}

} // verus!
