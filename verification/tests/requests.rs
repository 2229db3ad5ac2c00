use fileshare_core::config::Config;
use fileshare_core::dtos::{
    FileUploadDtos, FilterEmailDto, FilterUserDto, LoginUserDto, NameUpdateDto,
    RegisteredUserDto, RequestQueryDto, RetrieverFileDto, SearchQueryByEmailDto,
    UserPasswordUpdateDto, UserReceiveFileDto, UserSendFileDto,
};
use fileshare_core::errors::ValidationError;
use fileshare_core::models::{ReceiveFileDetails, SendFileDetails, User};
use fileshare_core::validation::validate_expiration_date;

const T0: i64 = 1_700_000_000_000;

fn registration() -> RegisteredUserDto {
    RegisteredUserDto {
        username: "alice".to_string(),
        email: "alice@example.com".to_string(),
        password: "longenough".to_string(),
        password_confirm: "longenough".to_string(),
    }
}

#[test]
fn registration_validation_accepts_and_rejects() {
    assert!(registration().validate().is_ok());

    let mut d = registration();
    d.username = String::new();
    assert_eq!(d.validate().unwrap_err(), ValidationError::UsernameEmpty);

    let mut d = registration();
    d.email = String::new();
    assert_eq!(d.validate().unwrap_err(), ValidationError::EmailRequired);

    let mut d = registration();
    d.email = "not-an-email".to_string();
    assert_eq!(d.validate().unwrap_err(), ValidationError::InvalidEmailFormat);

    let mut d = registration();
    d.password = "short".to_string();
    assert_eq!(d.validate().unwrap_err(), ValidationError::PasswordTooShort);

    let mut d = registration();
    d.password_confirm = String::new();
    assert_eq!(d.validate().unwrap_err(), ValidationError::PasswordConfirmEmpty);

    let mut d = registration();
    d.password_confirm = "different-1".to_string();
    assert_eq!(d.validate().unwrap_err(), ValidationError::PasswordConfirmMismatch);
}

#[test]
fn login_validation() {
    let ok = LoginUserDto { email: "a@b.co".to_string(), password: "12345678".to_string() };
    assert!(ok.validate().is_ok());
    let bad = LoginUserDto { email: String::new(), password: "12345678".to_string() };
    assert_eq!(bad.validate().unwrap_err(), ValidationError::EmailRequired);
    let bad = LoginUserDto { email: "nope".to_string(), password: "12345678".to_string() };
    assert_eq!(bad.validate().unwrap_err(), ValidationError::InvalidEmailFormat);
    let bad = LoginUserDto { email: "a@b.co".to_string(), password: String::new() };
    assert_eq!(bad.validate().unwrap_err(), ValidationError::PasswordRequired);
    let bad = LoginUserDto { email: "a@b.co".to_string(), password: "1234567".to_string() };
    assert_eq!(bad.validate().unwrap_err(), ValidationError::PasswordTooShort);
}

#[test]
fn query_validation_bounds() {
    assert!(RequestQueryDto { page: None, limit: None }.validate().is_ok());
    assert!(RequestQueryDto { page: Some(1), limit: Some(50) }.validate().is_ok());
    assert_eq!(
        RequestQueryDto { page: Some(0), limit: Some(10) }.validate().unwrap_err(),
        ValidationError::PageOutOfRange
    );
    assert_eq!(
        RequestQueryDto { page: Some(1), limit: Some(0) }.validate().unwrap_err(),
        ValidationError::LimitOutOfRange
    );
    assert_eq!(
        RequestQueryDto { page: Some(1), limit: Some(51) }.validate().unwrap_err(),
        ValidationError::LimitOutOfRange
    );
}

#[test]
fn password_update_validation() {
    let ok = UserPasswordUpdateDto {
        new_password: "12345678".to_string(),
        new_password_confirm: "12345678".to_string(),
        old_password: "87654321".to_string(),
    };
    assert!(ok.validate().is_ok());
    let mut d = ok.clone();
    d.new_password = String::new();
    assert_eq!(d.validate().unwrap_err(), ValidationError::NewPasswordRequired);
    let mut d = ok.clone();
    d.new_password = "short".to_string();
    assert_eq!(d.validate().unwrap_err(), ValidationError::NewPasswordTooShort);
    let mut d = ok.clone();
    d.new_password_confirm = String::new();
    assert_eq!(d.validate().unwrap_err(), ValidationError::NewPasswordConfirmRequired);
    let mut d = ok.clone();
    d.new_password_confirm = "short".to_string();
    assert_eq!(d.validate().unwrap_err(), ValidationError::NewPasswordConfirmTooShort);
    let mut d = ok.clone();
    d.old_password = String::new();
    assert_eq!(d.validate().unwrap_err(), ValidationError::OldPasswordRequired);
    let mut d = ok;
    d.old_password = "short".to_string();
    assert_eq!(d.validate().unwrap_err(), ValidationError::OldPasswordTooShort);
}

#[test]
fn misc_validations() {
    assert_eq!(
        NameUpdateDto { name: String::new() }.validate().unwrap_err(),
        ValidationError::NameEmpty
    );
    assert!(NameUpdateDto { name: "n".to_string() }.validate().is_ok());

    assert_eq!(
        SearchQueryByEmailDto { email: String::new() }.validate().unwrap_err(),
        ValidationError::EmailRequired
    );
    assert_eq!(
        SearchQueryByEmailDto { email: "xyz".to_string() }.validate().unwrap_err(),
        ValidationError::InvalidEmailFormat
    );
    assert!(SearchQueryByEmailDto { email: "x@y.zz".to_string() }.validate().is_ok());

    let ok = RetrieverFileDto { shared_id: "id".to_string(), password: "12345678".to_string() };
    assert!(ok.validate().is_ok());
    let bad = RetrieverFileDto { shared_id: String::new(), password: "12345678".to_string() };
    assert_eq!(bad.validate().unwrap_err(), ValidationError::SharedIdRequired);
    let bad = RetrieverFileDto { shared_id: "id".to_string(), password: String::new() };
    assert_eq!(bad.validate().unwrap_err(), ValidationError::PasswordRequired);
    let bad = RetrieverFileDto { shared_id: "id".to_string(), password: "1".to_string() };
    assert_eq!(bad.validate().unwrap_err(), ValidationError::PasswordTooShort);
}

#[test]
fn upload_validation_with_clock() {
    let ok = FileUploadDtos {
        recipient_email: "r@example.com".to_string(),
        password: "12345678".to_string(),
        expiration_date: "2023-11-15T00:00:00Z".to_string(),
    };
    // T0 is 2023-11-14T22:13:20Z; midnight of the 15th is in the future.
    assert!(ok.validate(T0).is_ok());

    let mut d = ok.clone();
    d.recipient_email = "broken".to_string();
    assert_eq!(d.validate(T0).unwrap_err(), ValidationError::InvalidEmailFormat);

    let mut d = ok.clone();
    d.password = String::new();
    assert_eq!(d.validate(T0).unwrap_err(), ValidationError::NewPasswordRequired);

    let mut d = ok.clone();
    d.password = "short".to_string();
    assert_eq!(d.validate(T0).unwrap_err(), ValidationError::NewPasswordTooShort);

    let mut d = ok.clone();
    d.expiration_date = String::new();
    assert_eq!(d.validate(T0).unwrap_err(), ValidationError::ExpirationDateRequired);

    let mut d = ok.clone();
    d.expiration_date = "15-11-2023".to_string();
    assert_eq!(d.validate(T0).unwrap_err(), ValidationError::InvalidDateFormat);

    let mut d = ok;
    d.expiration_date = "2020-01-01T00:00:00Z".to_string();
    assert_eq!(d.validate(T0).unwrap_err(), ValidationError::ExpirationNotInFuture);
}

#[test]
fn expiration_date_parsing_and_check() {
    // One second past the epoch parses to exactly 1000 ms: still in the
    // future at 999, no longer at 1000.
    assert!(validate_expiration_date("1970-01-01T00:00:01Z", 999).is_ok());
    assert_eq!(
        validate_expiration_date("1970-01-01T00:00:01Z", 1_000).unwrap_err(),
        ValidationError::ExpirationNotInFuture
    );
    // Fractional seconds and offsets are honoured: half a second is 500 ms.
    assert!(validate_expiration_date("1970-01-01T00:00:00.5+00:00", 499).is_ok());
    assert_eq!(
        validate_expiration_date("1970-01-01T00:00:00.5+00:00", 500).unwrap_err(),
        ValidationError::ExpirationNotInFuture
    );
    assert_eq!(
        validate_expiration_date("", 0).unwrap_err(),
        ValidationError::ExpirationDateRequired
    );
    assert_eq!(
        validate_expiration_date("tomorrow", 0).unwrap_err(),
        ValidationError::InvalidDateFormat
    );
}

#[test]
fn email_checker_is_not_constant() {
    let good = SearchQueryByEmailDto { email: "someone@example.com".to_string() };
    assert!(good.validate().is_ok());
    let bad = SearchQueryByEmailDto { email: "someone@".to_string() };
    assert_eq!(bad.validate().unwrap_err(), ValidationError::InvalidEmailFormat);
}

#[test]
fn error_messages_match_the_api() {
    assert_eq!(ValidationError::UsernameEmpty.message(), "Username must not be empty");
    assert_eq!(
        ValidationError::PasswordTooShort.message(),
        "Password must be at least 8 characters long"
    );
    assert_eq!(
        ValidationError::ExpirationNotInFuture.message(),
        "Expiration date must be in the future."
    );
    assert_eq!(ValidationError::ExpirationDateRequired.message(), "Expiration date is required.");
}

#[test]
fn user_projection_hides_credentials() {
    let user = User {
        id: 0x1234_5678_9abc_def0_1234_5678_9abc_def0,
        username: "alice".to_string(),
        email: "alice@example.com".to_string(),
        password: "super-secret-hash".to_string(),
        public_key: Some("pk".to_string()),
        created_at: Some(T0),
        updated_at: None,
    };
    let dto = FilterUserDto::filter_user(&user);
    assert_eq!(dto.id, "12345678-9abc-def0-1234-56789abcdef0");
    assert_eq!(dto.username, "alice");
    assert_eq!(dto.email, "alice@example.com");
    assert_eq!(dto.public_key.as_deref(), Some("pk"));
    assert_eq!(dto.created_at, Some(T0));
    assert_eq!(dto.updated_at, None);

    let emails = FilterEmailDto::filter_emails(&[user]);
    assert_eq!(emails.len(), 1);
    assert_eq!(emails[0].email, "alice@example.com");
}

#[test]
fn uuid_text_form() {
    fn id_of(id: u128) -> String {
        FilterUserDto::filter_user(&User {
            id,
            username: String::new(),
            email: String::new(),
            password: String::new(),
            public_key: None,
            created_at: None,
            updated_at: None,
        })
        .id
    }
    assert_eq!(id_of(0), "00000000-0000-0000-0000-000000000000");
    assert_eq!(id_of(1).len(), 36);
    assert_ne!(id_of(1), id_of(2));
}

#[test]
fn send_and_receive_row_projections() {
    let row = SendFileDetails {
        file_id: 7,
        filename: "f.txt".to_string(),
        recipient_email: "r@example.com".to_string(),
        expiration_date: None,
        created_at: Some(T0),
    };
    let dto = UserSendFileDto::filter_send_user_file(&row, 42);
    assert_eq!(dto.file_name, "f.txt");
    assert_eq!(dto.recipient_email, "r@example.com");
    // An absent expiration falls back to the supplied clock.
    assert_eq!(dto.expiration_date, 42);
    assert_eq!(dto.created_at, T0);

    let rows = vec![row];
    let dtos = UserSendFileDto::filter_send_user_files(&rows, 42);
    assert_eq!(dtos.len(), 1);
    assert_eq!(dtos[0].file_name, "f.txt");

    let rrow = ReceiveFileDetails {
        file_id: 8,
        filename: "g.txt".to_string(),
        sender_email: "s@example.com".to_string(),
        expiration_date: Some(T0),
        created_at: None,
    };
    let rdtos = UserReceiveFileDto::filter_receive_user_files(&[rrow], 43);
    assert_eq!(rdtos.len(), 1);
    assert_eq!(rdtos[0].sender_email, "s@example.com");
    assert_eq!(rdtos[0].expiration_date, T0);
    assert_eq!(rdtos[0].created_at, 43);
}

#[test]
fn config_defaults() {
    let c = Config::from_env_values("db://x".to_string(), "sec".to_string(), None, None);
    assert_eq!(c.jwt_maxage, 3600);
    assert_eq!(c.server_port, 8080);
    let c = Config::from_env_values("db://x".to_string(), "sec".to_string(), Some(60), Some(9000));
    assert_eq!(c.jwt_maxage, 60);
    assert_eq!(c.server_port, 9000);
    assert_eq!(c.database_url, "db://x");
    assert_eq!(c.jwt_secret, "sec");
}
