use dodopayments::error::ValidationError;
use dodopayments::routes::api_models::{
    CreateTransactionRequest, ListTransactionsRequest, LoginRequest, SignUpRequest,
    UpdateUserRequest,
};
use dodopayments::types::{
    Email, Password, PasswordTraits, EMAIL_MAX_LENGTH, MAX_PASSWORD_LENGTH, MIN_PASSWORD_LENGTH,
};

fn invalid(message: &str) -> ValidationError {
    ValidationError::InvalidValue { message: message.to_string() }
}

fn bad_password() -> ValidationError {
    ValidationError::IncorrectValueProvided { field_name: "password" }
}

fn email(text: &str) -> Email {
    Email::new(text.to_string())
}

fn password(text: &str) -> Password {
    Password::new(text.to_string())
}

#[test]
fn well_formed_emails_are_accepted() {
    for text in [
        "user@example.com",
        "first.last+tag@sub.example.co",
        "UPPER@EXAMPLE.COM",
        "a@b.cd",
        "o'neil!#$%&*/=?^_`{|}~-@x-y.example",
        "digits123@123.example",
    ] {
        assert_eq!(email(text).validate(), Ok(()), "{text}");
    }
}

#[test]
fn malformed_emails_are_refused() {
    for text in [
        "plainaddress",
        "@example.com",
        "user@",
        "user@localhost",
        "user@-example.com",
        "user@example-.com",
        "user@exam_ple.com",
        "user name@example.com",
        "user@example.com ",
        "user@@example.com",
        "user@example..com",
    ] {
        assert_eq!(
            email(text).validate(),
            Err(invalid("Invalid email address format")),
            "{text}"
        );
    }
}

#[test]
fn email_length_is_bounded() {
    assert_eq!(EMAIL_MAX_LENGTH, 319);
    let too_long = invalid("Email address is either empty or exceeds maximum allowed length");
    assert_eq!(email("").validate(), Err(too_long.clone()));
    let domain = "@example.com";
    let longest = format!("{}{}", "a".repeat(EMAIL_MAX_LENGTH - domain.len()), domain);
    assert_eq!(longest.chars().count(), 319);
    assert_eq!(email(&longest).validate(), Ok(()));
    let longer = format!("a{longest}");
    assert_eq!(email(&longer).validate(), Err(too_long));
}

#[test]
fn email_label_is_at_most_63_characters() {
    let label_63 = format!("user@{}.com", "a".repeat(63));
    assert_eq!(email(&label_63).validate(), Ok(()));
    let label_64 = format!("user@{}.com", "a".repeat(64));
    assert_eq!(email(&label_64).validate(), Err(invalid("Invalid email address format")));
}

#[test]
fn email_is_judged_by_what_the_search_gave() {
    let address = email("user@example.com");
    assert_eq!(address.judge(Some(true)), Ok(()));
    assert_eq!(address.judge(Some(false)), Err(invalid("Invalid email address format")));
    assert_eq!(address.judge(None), Err(invalid("Invalid regex expression")));
    let empty = email("");
    assert_eq!(empty.judge(None), Err(invalid("Invalid regex expression")));
    assert_eq!(
        empty.judge(Some(true)),
        Err(invalid("Email address is either empty or exceeds maximum allowed length"))
    );
    assert_eq!(
        empty.judge(Some(false)),
        Err(invalid("Email address is either empty or exceeds maximum allowed length"))
    );
}

#[test]
fn strong_passwords_are_accepted() {
    assert_eq!(password("Password123!").validate(), Ok(()));
    assert_eq!(password("aB3$efgh").validate(), Ok(()));
    assert_eq!(password("Ünïcödé1_x").validate(), Ok(()));
}

#[test]
fn weak_passwords_are_refused() {
    for text in [
        "",
        "aB3$efg",
        "password123!",
        "PASSWORD123!",
        "Password!!!!",
        "Password1234",
        "Pass word123!",
        "Password123!\t",
        "WrongPassword",
    ] {
        assert_eq!(password(text).validate(), Err(bad_password()), "{text:?}");
    }
}

#[test]
fn password_length_is_bounded() {
    assert_eq!(MIN_PASSWORD_LENGTH, 8);
    assert_eq!(MAX_PASSWORD_LENGTH, 70);
    let longest = format!("aB3${}", "x".repeat(66));
    assert_eq!(longest.chars().count(), 70);
    assert_eq!(password(&longest).validate(), Ok(()));
    let longer = format!("{longest}x");
    assert_eq!(password(&longer).validate(), Err(bad_password()));
    // Length counts characters, not bytes.
    let wide = format!("aB3${}", "é".repeat(66));
    assert_eq!(wide.len(), 136);
    assert_eq!(password(&wide).validate(), Ok(()));
}

#[test]
fn password_traits_are_read_off_the_characters() {
    let traits = password("Ab1 !").traits();
    assert_eq!(
        traits,
        PasswordTraits {
            length: 5,
            has_upper_case: true,
            has_lower_case: true,
            has_numeric_value: true,
            has_special_character: true,
            has_whitespace: true,
        }
    );
    let plain = password("abc").traits();
    assert_eq!(
        plain,
        PasswordTraits {
            length: 3,
            has_upper_case: false,
            has_lower_case: true,
            has_numeric_value: false,
            has_special_character: false,
            has_whitespace: false,
        }
    );
    let digits = password("٣").traits();
    assert!(digits.has_numeric_value);
    assert!(!digits.has_special_character);
}

#[test]
fn password_is_judged_by_its_traits() {
    let good = PasswordTraits {
        length: 8,
        has_upper_case: true,
        has_lower_case: true,
        has_numeric_value: true,
        has_special_character: true,
        has_whitespace: false,
    };
    assert_eq!(good.judge(), Ok(()));
    assert_eq!(PasswordTraits { length: 7, ..good }.judge(), Err(bad_password()));
    assert_eq!(PasswordTraits { length: 70, ..good }.judge(), Ok(()));
    assert_eq!(PasswordTraits { length: 71, ..good }.judge(), Err(bad_password()));
    assert_eq!(PasswordTraits { has_upper_case: false, ..good }.judge(), Err(bad_password()));
    assert_eq!(PasswordTraits { has_lower_case: false, ..good }.judge(), Err(bad_password()));
    assert_eq!(PasswordTraits { has_numeric_value: false, ..good }.judge(), Err(bad_password()));
    assert_eq!(
        PasswordTraits { has_special_character: false, ..good }.judge(),
        Err(bad_password())
    );
    assert_eq!(PasswordTraits { has_whitespace: true, ..good }.judge(), Err(bad_password()));
}

#[test]
fn sign_up_request_reports_the_first_failure() {
    let request = |name: &str, address: &str, secret: &str| SignUpRequest {
        name: name.to_string(),
        email: email(address),
        password: password(secret),
    };
    assert_eq!(request("Ada", "ada@example.com", "Password123!").validate(), Ok(()));
    assert_eq!(
        request("", "nonsense", "weak").validate(),
        Err(invalid("Invalid email address format"))
    );
    assert_eq!(request("", "ada@example.com", "weak").validate(), Err(bad_password()));
    assert_eq!(
        request("", "ada@example.com", "Password123!").validate(),
        Err(invalid("Name cannot be empty"))
    );
}

#[test]
fn login_request_reports_the_first_failure() {
    let request = |address: &str, secret: &str| LoginRequest {
        email: email(address),
        password: password(secret),
    };
    assert_eq!(request("ada@example.com", "Password123!").validate(), Ok(()));
    assert_eq!(
        request("", "weak").validate(),
        Err(invalid("Email address is either empty or exceeds maximum allowed length"))
    );
    assert_eq!(request("ada@example.com", "weak").validate(), Err(bad_password()));
}

#[test]
fn update_request_needs_a_field_and_sound_values() {
    let request = |name: Option<&str>, amount: Option<i64>| UpdateUserRequest {
        name: name.map(|text| text.to_string()),
        amount,
    };
    assert_eq!(
        request(None, None).validate(),
        Err(invalid("At least one of name or amount must be provided for update"))
    );
    assert_eq!(request(Some(""), Some(-1)).validate(), Err(invalid("Amount cannot be negative")));
    assert_eq!(request(Some(""), Some(0)).validate(), Err(invalid("Name cannot be empty")));
    assert_eq!(request(Some(""), None).validate(), Err(invalid("Name cannot be empty")));
    assert_eq!(request(None, Some(0)).validate(), Ok(()));
    assert_eq!(request(Some("Ada"), None).validate(), Ok(()));
    assert_eq!(request(Some("Ada"), Some(i64::MAX)).validate(), Ok(()));
}

#[test]
fn transaction_request_needs_both_sides_and_a_positive_amount() {
    let request = |sender: &str, receiver: &str, amount: i64| CreateTransactionRequest {
        sender_id: sender.to_string(),
        receiver_id: receiver.to_string(),
        amount,
    };
    assert_eq!(request("", "", 0).validate(), Err(invalid("Sender ID cannot be empty")));
    assert_eq!(request("a", "", 0).validate(), Err(invalid("Receiver ID cannot be empty")));
    assert_eq!(request("a", "b", 0).validate(), Err(invalid("Amount must be greater than zero")));
    assert_eq!(request("a", "b", -3).validate(), Err(invalid("Amount must be greater than zero")));
    assert_eq!(request("a", "b", 1).validate(), Ok(()));
    assert_eq!(request("a", "a", 1).validate(), Ok(()));
}

#[test]
fn list_request_defaults_to_the_first_page_of_ten() {
    let defaults = ListTransactionsRequest { page: None, page_size: None };
    assert_eq!(defaults.page(), 1);
    assert_eq!(defaults.page_size(), 10);
    let given = ListTransactionsRequest { page: Some(3), page_size: Some(25) };
    assert_eq!(given.page(), 3);
    assert_eq!(given.page_size(), 25);
}

#[test]
fn validation_errors_render_their_message() {
    assert_eq!(invalid("Name cannot be empty").message(), "Name cannot be empty");
    assert_eq!(bad_password().message(), "Incorrect value provided for field: password");
    let missing = ValidationError::MissingRequiredField { field_name: "email".to_string() };
    assert_eq!(missing.message(), "Missing required field: email");
    assert_eq!(ValidationError::invalid_value("x"), invalid("x"));
}
