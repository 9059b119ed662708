use vstd::prelude::*;
use vstd::string::{StrSliceExecFns, StringExecFns};

use crate::error::ApiError;
use crate::types::Claims;
use crate::utils::text::str_eq;

verus! {

/// The bearer of a token that was verified.
#[derive(Debug, Clone)]
pub struct AuthResolver(pub Claims);

/// The token in the value of an authorization header: what follows
/// `Bearer `, where the value begins with it.
pub open spec fn bearer_token_spec(header: Option<Seq<char>>) -> Option<Seq<char>> {
    match header {
        Some(value) => if value.len() >= 7 && value.subrange(0, 7) == "Bearer "@ {
            Some(value.subrange(7, value.len() as int))
        } else {
            None
        },
        None => None,
    }
}

/// Takes the token out of the value of an authorization header. Where the
/// header is absent or does not begin with `Bearer `, the request fails with
/// `HeadersError`.
pub fn bearer_token(header: Option<&str>) -> (token: Result<String, ApiError>)
    ensures
        match token {
            Ok(token) => bearer_token_spec(
                match header {
                    Some(value) => Some(value@),
                    None => None,
                },
            ) == Some(token@),
            Err(error) => {
                &&& bearer_token_spec(
                    match header {
                        Some(value) => Some(value@),
                        None => None,
                    },
                ) is None
                &&& error matches ApiError::HeadersError(what) && what@ == "JWT key"@
            },
        },
{
    let value = match header {
        Some(value) => value,
        None => {
            return Err(ApiError::HeadersError("JWT key"));
        },
    };
    let length = value.unicode_len();
    if length < 7 {
        return Err(ApiError::HeadersError("JWT key"));
    }
    proof {
        reveal_strlit("Bearer ");
    }
    if !str_eq(value.substring_char(0, 7), "Bearer ") {
        return Err(ApiError::HeadersError("JWT key"));
    }
    Ok(String::from_str(value.substring_char(7, length)))
}

impl AuthResolver {
    /// The token of a request, taken from the value of its authorization
    /// header. A request without one is unauthenticated.
    pub fn token(header: Option<&str>) -> (token: Result<String, ApiError>)
        ensures
            match token {
                Ok(token) => bearer_token_spec(
                    match header {
                        Some(value) => Some(value@),
                        None => None,
                    },
                ) == Some(token@),
                Err(error) => {
                    &&& bearer_token_spec(
                        match header {
                            Some(value) => Some(value@),
                            None => None,
                        },
                    ) is None
                    &&& error == ApiError::UnAuthenticated
                },
            },
    {
        match bearer_token(header) {
            Ok(token) => Ok(token),
            Err(_) => Err(ApiError::UnAuthenticated),
        }
    }

    /// The bearer, given what verifying the token gave: the claims of a
    /// token that was accepted, or nothing. Without claims the request is
    /// unauthenticated.
    pub fn from_decoded(decoded: Option<Claims>) -> (resolved: Result<AuthResolver, ApiError>)
        ensures
            match decoded {
                Some(claims) => resolved == Ok::<AuthResolver, ApiError>(AuthResolver(claims)),
                None => resolved == Err::<AuthResolver, ApiError>(ApiError::UnAuthenticated),
            },
    {
        match decoded {
            Some(claims) => Ok(AuthResolver(claims)),
            None => Err(ApiError::UnAuthenticated),
        }
    }
}

} // verus!
