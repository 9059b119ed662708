use vstd::prelude::*;
use vstd::string::StrSliceExecFns;

use crate::error::ValidationError;
use crate::utils::chars::{
    char_is_alphanumeric, char_is_lowercase, char_is_numeric, char_is_uppercase,
    char_is_whitespace, is_alphanumeric, is_lowercase, is_numeric, is_uppercase, is_whitespace,
};
use crate::utils::pattern::{regex_compiles, regex_matches, search};

verus! {

/// Maximum password length.
pub const MAX_PASSWORD_LENGTH: usize = 70;

/// Minimum password length.
pub const MIN_PASSWORD_LENGTH: usize = 8;

/// Maximum email length.
pub const EMAIL_MAX_LENGTH: usize = 319;

/// The shape of an email address: a local part of letters, digits and some
/// punctuation, an `@`, and two or more labels joined by dots, each of at
/// most 63 letters, digits and inner hyphens.
pub const EMAIL_PATTERN: &'static str =
    r"^(?i)[a-z0-9.!#$%&'*+/=?^_`{|}~-]+@[a-z0-9](?:[a-z0-9-]{0,61}[a-z0-9])?(?:\.[a-z0-9](?:[a-z0-9-]{0,61}[a-z0-9])?)+$";

/// An email address.
#[derive(Debug, Clone, Default)]
pub struct Email(pub String);

/// Why an email address of `length` characters is refused, given what the
/// search for the pattern gave: the message, or nothing where it is accepted.
pub open spec fn email_refusal(length: nat, searched: Option<bool>) -> Option<Seq<char>> {
    if searched is None {
        Some("Invalid regex expression"@)
    } else if length == 0 || length > EMAIL_MAX_LENGTH {
        Some("Email address is either empty or exceeds maximum allowed length"@)
    } else if searched == Some(false) {
        Some("Invalid email address format"@)
    } else {
        None
    }
}

/// What the search for [`EMAIL_PATTERN`] in a text gives.
pub open spec fn email_search(text: Seq<char>) -> Option<bool> {
    if regex_compiles(EMAIL_PATTERN@) {
        Some(regex_matches(EMAIL_PATTERN@, text))
    } else {
        None
    }
}

impl Email {
    /// Creates a new Email.
    pub fn new(email: String) -> (created: Self)
        ensures
            created.0 == email,
    {
        Self(email)
    }

    /// Judges the address, given what the search for [`EMAIL_PATTERN`] in it
    /// gave: it is accepted if the pattern matched and the address has
    /// between 1 and [`EMAIL_MAX_LENGTH`] characters.
    pub fn judge(&self, searched: Option<bool>) -> (verdict: Result<(), ValidationError>)
        ensures
            match verdict {
                Ok(()) => email_refusal(self.0@.len(), searched) is None,
                Err(error) => error matches ValidationError::InvalidValue { message } && Some(
                    message@,
                ) == email_refusal(self.0@.len(), searched),
            },
    {
        let matched = match searched {
            Some(matched) => matched,
            None => {
                return Err(ValidationError::invalid_value("Invalid regex expression"));
            },
        };
        let length = self.0.as_str().unicode_len();
        if length == 0 || length > EMAIL_MAX_LENGTH {
            return Err(
                ValidationError::invalid_value(
                    "Email address is either empty or exceeds maximum allowed length",
                ),
            );
        }
        if !matched {
            return Err(ValidationError::invalid_value("Invalid email address format"));
        }
        Ok(())
    }

    /// Validates the email address: it has between 1 and
    /// [`EMAIL_MAX_LENGTH`] characters and [`EMAIL_PATTERN`] matches it.
    pub fn validate(&self) -> (verdict: Result<(), ValidationError>)
        ensures
            match verdict {
                Ok(()) => email_refusal(self.0@.len(), email_search(self.0@)) is None,
                Err(error) => error matches ValidationError::InvalidValue { message } && Some(
                    message@,
                ) == email_refusal(self.0@.len(), email_search(self.0@)),
            },
    {
        let searched = search(EMAIL_PATTERN, self.0.as_str());
        self.judge(searched)
    }
}

/// A password.
#[derive(Debug, Clone)]
pub struct Password(pub String);

/// What a password holds, by classes of characters.
#[derive(Debug, Clone, Copy, PartialEq, Eq, Structural)]
pub struct PasswordTraits {
    /// The number of characters.
    pub length: usize,
    pub has_upper_case: bool,
    pub has_lower_case: bool,
    pub has_numeric_value: bool,
    /// Some character is neither a letter nor a number.
    pub has_special_character: bool,
    pub has_whitespace: bool,
}

impl PasswordTraits {
    /// Whether a password with these traits is accepted: between
    /// [`MIN_PASSWORD_LENGTH`] and [`MAX_PASSWORD_LENGTH`] characters, of
    /// which one is upper case, one lower case, one a number and one neither
    /// a letter nor a number, and none is white space.
    pub open spec fn acceptable(self) -> bool {
        &&& MIN_PASSWORD_LENGTH <= self.length <= MAX_PASSWORD_LENGTH
        &&& self.has_upper_case
        &&& self.has_lower_case
        &&& self.has_numeric_value
        &&& self.has_special_character
        &&& !self.has_whitespace
    }

    /// The traits of a text.
    pub open spec fn of(text: Seq<char>) -> PasswordTraits {
        PasswordTraits {
            length: text.len() as usize,
            has_upper_case: exists|i: int| 0 <= i < text.len() && is_uppercase(#[trigger] text[i]),
            has_lower_case: exists|i: int| 0 <= i < text.len() && is_lowercase(#[trigger] text[i]),
            has_numeric_value: exists|i: int| 0 <= i < text.len() && is_numeric(#[trigger] text[i]),
            has_special_character: exists|i: int|
                0 <= i < text.len() && !is_alphanumeric(#[trigger] text[i]),
            has_whitespace: exists|i: int| 0 <= i < text.len() && is_whitespace(#[trigger] text[i]),
        }
    }

    /// Judges a password by its traits.
    pub fn judge(&self) -> (verdict: Result<(), ValidationError>)
        ensures
            match verdict {
                Ok(()) => self.acceptable(),
                Err(error) => !self.acceptable() && (
                error matches ValidationError::IncorrectValueProvided { field_name } && field_name@
                    == "password"@),
            },
    {
        let is_password_format_valid = self.has_upper_case && self.has_lower_case
            && self.has_numeric_value && self.has_special_character && !self.has_whitespace;
        let is_too_long = self.length > MAX_PASSWORD_LENGTH;
        let is_too_short = self.length < MIN_PASSWORD_LENGTH;
        if is_too_short || is_too_long || !is_password_format_valid {
            return Err(ValidationError::IncorrectValueProvided { field_name: "password" });
        }
        Ok(())
    }
}

impl Password {
    /// Creates a new Password.
    pub fn new(password: String) -> (created: Self)
        ensures
            created.0 == password,
    {
        Self(password)
    }

    /// The traits of the password. Of a password that is longer than
    /// [`MAX_PASSWORD_LENGTH`] only the length is looked at.
    pub fn traits(&self) -> (traits: PasswordTraits)
        ensures
            traits.length == self.0@.len(),
            self.0@.len() <= MAX_PASSWORD_LENGTH ==> traits == PasswordTraits::of(self.0@),
    {
        let text = self.0.as_str();
        let length = text.unicode_len();
        let mut traits = PasswordTraits {
            length,
            has_upper_case: false,
            has_lower_case: false,
            has_numeric_value: false,
            has_special_character: false,
            has_whitespace: false,
        };
        if length > MAX_PASSWORD_LENGTH {
            return traits;
        }
        let mut i: usize = 0;
        while i < length
            invariant
                i <= length,
                length == text@.len(),
                traits.length == length,
                traits.has_upper_case == (exists|k: int| 0 <= k < i && is_uppercase(#[trigger] text@[k])),
                traits.has_lower_case == (exists|k: int| 0 <= k < i && is_lowercase(#[trigger] text@[k])),
                traits.has_numeric_value == (exists|k: int| 0 <= k < i && is_numeric(#[trigger] text@[k])),
                traits.has_special_character == (exists|k: int|
                    0 <= k < i && !is_alphanumeric(#[trigger] text@[k])),
                traits.has_whitespace == (exists|k: int| 0 <= k < i && is_whitespace(#[trigger] text@[k])),
            decreases length - i,
        {
            let c = text.get_char(i);
            let ghost before = traits;
            traits.has_upper_case = traits.has_upper_case || char_is_uppercase(c);
            traits.has_lower_case = traits.has_lower_case || char_is_lowercase(c);
            traits.has_numeric_value = traits.has_numeric_value || char_is_numeric(c);
            traits.has_special_character = traits.has_special_character || !char_is_alphanumeric(
                c,
            );
            traits.has_whitespace = traits.has_whitespace || char_is_whitespace(c);
            proof {
                let n = i as int;
                assert(text@[n] == c);
                assert(traits.has_upper_case == (exists|k: int|
                    0 <= k < n + 1 && is_uppercase(#[trigger] text@[k]))) by {
                    if before.has_upper_case {
                        let k = choose|k: int| 0 <= k < n && is_uppercase(#[trigger] text@[k]);
                        assert(0 <= k < n + 1 && is_uppercase(text@[k]));
                    }
                }
                assert(traits.has_lower_case == (exists|k: int|
                    0 <= k < n + 1 && is_lowercase(#[trigger] text@[k]))) by {
                    if before.has_lower_case {
                        let k = choose|k: int| 0 <= k < n && is_lowercase(#[trigger] text@[k]);
                        assert(0 <= k < n + 1 && is_lowercase(text@[k]));
                    }
                }
                assert(traits.has_numeric_value == (exists|k: int|
                    0 <= k < n + 1 && is_numeric(#[trigger] text@[k]))) by {
                    if before.has_numeric_value {
                        let k = choose|k: int| 0 <= k < n && is_numeric(#[trigger] text@[k]);
                        assert(0 <= k < n + 1 && is_numeric(text@[k]));
                    }
                }
                assert(traits.has_special_character == (exists|k: int|
                    0 <= k < n + 1 && !is_alphanumeric(#[trigger] text@[k]))) by {
                    if before.has_special_character {
                        let k = choose|k: int| 0 <= k < n && !is_alphanumeric(#[trigger] text@[k]);
                        assert(0 <= k < n + 1 && !is_alphanumeric(text@[k]));
                    }
                }
                assert(traits.has_whitespace == (exists|k: int|
                    0 <= k < n + 1 && is_whitespace(#[trigger] text@[k]))) by {
                    if before.has_whitespace {
                        let k = choose|k: int| 0 <= k < n && is_whitespace(#[trigger] text@[k]);
                        assert(0 <= k < n + 1 && is_whitespace(text@[k]));
                    }
                }
            }
            i = i + 1;
        }
        traits
    }

    /// Validates the password: see [`PasswordTraits::acceptable`].
    pub fn validate(&self) -> (verdict: Result<(), ValidationError>)
        ensures
            match verdict {
                Ok(()) => PasswordTraits::of(self.0@).acceptable(),
                Err(error) => !PasswordTraits::of(self.0@).acceptable() && (
                error matches ValidationError::IncorrectValueProvided { field_name } && field_name@
                    == "password"@),
            },
    {
        self.traits().judge()
    }
}

/// What a token says of its bearer.
#[derive(Debug, Clone)]
pub struct Claims {
    pub user_id: String,
    pub email: String,
    pub name: String,
    /// When the token expires, in seconds since the Unix epoch.
    pub exp: u64,
}

} // verus!
