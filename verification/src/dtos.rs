use vstd::prelude::*;

verus! {

use vstd::string::StrSliceExecFns;
use crate::EpochMs;
use crate::errors::ValidationError;
use crate::ids::{uuid_str_of, uuid_string};
use crate::models::{ReceiveFileDetails, SendFileDetails, User};
use crate::validation::{email_ok, expiration_date_valid, is_valid_email, validate_expiration_date};

// ---------------------------------------------------------------------------
// Inbound request bodies, each with the validation the transport applies
// before acting on it.
// ---------------------------------------------------------------------------

/// Registration request.
#[derive(Debug, Default, Clone)]
pub struct RegisteredUserDto {
    pub username: String,
    pub email: String,
    pub password: String,
    pub password_confirm: String,
}

impl RegisteredUserDto {
    pub open spec fn valid(&self) -> bool {
        &&& self.username@.len() > 0
        &&& self.email@.len() > 0
        &&& email_ok(self.email@)
        &&& self.password@.len() >= 8
        &&& self.password_confirm@.len() > 0
        &&& self.password_confirm@ == self.password@
    }

    /// Accept exactly the well-formed registrations; reject with the first
    /// rule broken, in field order.
    pub fn validate(&self) -> (r: Result<(), ValidationError>)
        ensures
            r is Ok <==> self.valid(),
            r == Err::<(), ValidationError>(ValidationError::UsernameEmpty) <==> self.username@.len()
                == 0,
            r == Err::<(), ValidationError>(ValidationError::EmailRequired) <==> (
            self.username@.len() > 0 && self.email@.len() == 0),
            r == Err::<(), ValidationError>(ValidationError::InvalidEmailFormat) <==> (
            self.username@.len() > 0 && self.email@.len() > 0 && !email_ok(self.email@)),
            r == Err::<(), ValidationError>(ValidationError::PasswordTooShort) <==> (
            self.username@.len() > 0 && self.email@.len() > 0 && email_ok(self.email@)
                && self.password@.len() < 8),
            r == Err::<(), ValidationError>(ValidationError::PasswordConfirmEmpty) <==> (
            self.username@.len() > 0 && self.email@.len() > 0 && email_ok(self.email@)
                && self.password@.len() >= 8 && self.password_confirm@.len() == 0),
            r == Err::<(), ValidationError>(ValidationError::PasswordConfirmMismatch) <==> (
            self.username@.len() > 0 && self.email@.len() > 0 && email_ok(self.email@)
                && self.password@.len() >= 8 && self.password_confirm@.len() > 0
                && self.password_confirm@ != self.password@),
    {
        if self.username.as_str().is_empty() {
            return Err(ValidationError::UsernameEmpty);
        }
        if self.email.as_str().is_empty() {
            return Err(ValidationError::EmailRequired);
        }
        if !is_valid_email(self.email.as_str()) {
            return Err(ValidationError::InvalidEmailFormat);
        }
        if self.password.as_str().unicode_len() < 8 {
            return Err(ValidationError::PasswordTooShort);
        }
        if self.password_confirm.as_str().is_empty() {
            return Err(ValidationError::PasswordConfirmEmpty);
        }
        if !(self.password_confirm == self.password) {
            return Err(ValidationError::PasswordConfirmMismatch);
        }
        Ok(())
    }
}

/// Login request.
#[derive(Debug, Clone, Default)]
pub struct LoginUserDto {
    pub email: String,
    pub password: String,
}

impl LoginUserDto {
    pub open spec fn valid(&self) -> bool {
        &&& self.email@.len() > 0
        &&& email_ok(self.email@)
        &&& self.password@.len() >= 8
    }

    pub fn validate(&self) -> (r: Result<(), ValidationError>)
        ensures
            r is Ok <==> self.valid(),
            r == Err::<(), ValidationError>(ValidationError::EmailRequired) <==> self.email@.len()
                == 0,
            r == Err::<(), ValidationError>(ValidationError::InvalidEmailFormat) <==> (
            self.email@.len() > 0 && !email_ok(self.email@)),
            r == Err::<(), ValidationError>(ValidationError::PasswordRequired) <==> (
            self.email@.len() > 0 && email_ok(self.email@) && self.password@.len() == 0),
            r == Err::<(), ValidationError>(ValidationError::PasswordTooShort) <==> (
            self.email@.len() > 0 && email_ok(self.email@) && 0 < self.password@.len() < 8),
    {
        if self.email.as_str().is_empty() {
            return Err(ValidationError::EmailRequired);
        }
        if !is_valid_email(self.email.as_str()) {
            return Err(ValidationError::InvalidEmailFormat);
        }
        if self.password.as_str().is_empty() {
            return Err(ValidationError::PasswordRequired);
        }
        if self.password.as_str().unicode_len() < 8 {
            return Err(ValidationError::PasswordTooShort);
        }
        Ok(())
    }
}

/// Pagination query for the listing endpoints.
pub struct RequestQueryDto {
    pub page: Option<u32>,
    pub limit: Option<u32>,
}

impl RequestQueryDto {
    pub open spec fn valid(&self) -> bool {
        &&& (self.page matches Some(p) ==> p >= 1)
        &&& (self.limit matches Some(l) ==> 1 <= l <= 50)
    }

    pub fn validate(&self) -> (r: Result<(), ValidationError>)
        ensures
            r is Ok <==> self.valid(),
            r == Err::<(), ValidationError>(ValidationError::PageOutOfRange) <==> (
            self.page matches Some(p) && p < 1),
            r == Err::<(), ValidationError>(ValidationError::LimitOutOfRange) <==> ((
            self.page matches Some(p) ==> p >= 1) && (self.limit matches Some(l) && !(1 <= l
                <= 50))),
    {
        match self.page {
            Some(p) => {
                if p < 1 {
                    return Err(ValidationError::PageOutOfRange);
                }
            },
            None => {},
        }
        match self.limit {
            Some(l) => {
                if l < 1 || l > 50 {
                    return Err(ValidationError::LimitOutOfRange);
                }
            },
            None => {},
        }
        Ok(())
    }
}

// ---------------------------------------------------------------------------
// Outbound views over the data model.
// ---------------------------------------------------------------------------

/// A user as presented to clients: no credential, id in text form.
#[derive(Debug, Clone)]
pub struct FilterUserDto {
    pub id: String,
    pub username: String,
    pub email: String,
    pub public_key: Option<String>,
    pub created_at: Option<EpochMs>,
    pub updated_at: Option<EpochMs>,
}

impl FilterUserDto {
    /// Project a user record into its response shape; the password hash is
    /// deliberately left behind.
    pub fn filter_user(user: &User) -> (r: Self)
        ensures
            r.id@ == uuid_str_of(user.id),
            r.username@ == user.username@,
            r.email@ == user.email@,
            r.public_key == user.public_key,
            r.created_at == user.created_at,
            r.updated_at == user.updated_at,
    {
        FilterUserDto {
            id: uuid_string(user.id),
            username: user.username.clone(),
            email: user.email.clone(),
            public_key: user.public_key.clone(),
            created_at: user.created_at,
            updated_at: user.updated_at,
        }
    }
}

#[derive(Debug, Clone)]
pub struct UserData {
    pub user: FilterUserDto,
}

#[derive(Debug, Clone)]
pub struct UserResponsibleDto {
    pub status: String,
    pub data: UserData,
}

/// One "sent" row as presented to clients.
#[derive(Debug, Clone)]
pub struct UserSendFileDto {
    pub file_id: String,
    pub file_name: String,
    pub recipient_email: String,
    pub expiration_date: EpochMs,
    pub created_at: EpochMs,
}

impl UserSendFileDto {
    /// Project one "sent" row; absent timestamps fall back to `now`.
    pub fn filter_send_user_file(file_data: &SendFileDetails, now: EpochMs) -> (r: Self)
        ensures
            r.file_id@ == uuid_str_of(file_data.file_id),
            r.file_name@ == file_data.filename@,
            r.recipient_email@ == file_data.recipient_email@,
            r.expiration_date == (match file_data.expiration_date {
                Some(t) => t,
                None => now,
            }),
            r.created_at == (match file_data.created_at {
                Some(t) => t,
                None => now,
            }),
    {
        UserSendFileDto {
            file_id: uuid_string(file_data.file_id),
            file_name: file_data.filename.clone(),
            recipient_email: file_data.recipient_email.clone(),
            expiration_date: match file_data.expiration_date {
                Some(t) => t,
                None => now,
            },
            created_at: match file_data.created_at {
                Some(t) => t,
                None => now,
            },
        }
    }

    /// Project a whole listing, in order.
    #[verifier::loop_isolation(false)]
    pub fn filter_send_user_files(user: &[SendFileDetails], now: EpochMs) -> (r: Vec<Self>)
        ensures
            r@.len() == user@.len(),
            forall|i: int|
                0 <= i < user@.len() ==> {
                    &&& (#[trigger] r@[i]).file_id@ == uuid_str_of(user@[i].file_id)
                    &&& r@[i].file_name@ == user@[i].filename@
                    &&& r@[i].recipient_email@ == user@[i].recipient_email@
                    &&& r@[i].expiration_date == (match user@[i].expiration_date {
                        Some(t) => t,
                        None => now,
                    })
                    &&& r@[i].created_at == (match user@[i].created_at {
                        Some(t) => t,
                        None => now,
                    })
                },
    {
        let mut out: Vec<UserSendFileDto> = Vec::new();
        let mut i: usize = 0;
        while i < user.len()
            invariant
                i <= user@.len(),
                out@.len() == i,
                forall|j: int|
                    0 <= j < i ==> {
                        &&& (#[trigger] out@[j]).file_id@ == uuid_str_of(user@[j].file_id)
                        &&& out@[j].file_name@ == user@[j].filename@
                        &&& out@[j].recipient_email@ == user@[j].recipient_email@
                        &&& out@[j].expiration_date == (match user@[j].expiration_date {
                            Some(t) => t,
                            None => now,
                        })
                        &&& out@[j].created_at == (match user@[j].created_at {
                            Some(t) => t,
                            None => now,
                        })
                    },
            decreases user@.len() - i,
        {
            out.push(Self::filter_send_user_file(&user[i], now));
            i += 1;
        }
        out
    }
}

#[derive(Debug, Clone)]
pub struct UserSendFileListResponseDto {
    pub status: String,
    pub files: Vec<UserSendFileDto>,
    pub results: i64,
}

/// One "received" row as presented to clients.
#[derive(Debug, Clone)]
pub struct UserReceiveFileDto {
    pub file_id: String,
    pub file_name: String,
    pub sender_email: String,
    pub expiration_date: EpochMs,
    pub created_at: EpochMs,
}

impl UserReceiveFileDto {
    /// Project one "received" row; absent timestamps fall back to `now`.
    pub fn filter_receive_user_file(file_data: &ReceiveFileDetails, now: EpochMs) -> (r: Self)
        ensures
            r.file_id@ == uuid_str_of(file_data.file_id),
            r.file_name@ == file_data.filename@,
            r.sender_email@ == file_data.sender_email@,
            r.expiration_date == (match file_data.expiration_date {
                Some(t) => t,
                None => now,
            }),
            r.created_at == (match file_data.created_at {
                Some(t) => t,
                None => now,
            }),
    {
        UserReceiveFileDto {
            file_id: uuid_string(file_data.file_id),
            file_name: file_data.filename.clone(),
            sender_email: file_data.sender_email.clone(),
            expiration_date: match file_data.expiration_date {
                Some(t) => t,
                None => now,
            },
            created_at: match file_data.created_at {
                Some(t) => t,
                None => now,
            },
        }
    }

    /// Project a whole listing, in order.
    #[verifier::loop_isolation(false)]
    pub fn filter_receive_user_files(user: &[ReceiveFileDetails], now: EpochMs) -> (r: Vec<Self>)
        ensures
            r@.len() == user@.len(),
            forall|i: int|
                0 <= i < user@.len() ==> {
                    &&& (#[trigger] r@[i]).file_id@ == uuid_str_of(user@[i].file_id)
                    &&& r@[i].file_name@ == user@[i].filename@
                    &&& r@[i].sender_email@ == user@[i].sender_email@
                    &&& r@[i].expiration_date == (match user@[i].expiration_date {
                        Some(t) => t,
                        None => now,
                    })
                    &&& r@[i].created_at == (match user@[i].created_at {
                        Some(t) => t,
                        None => now,
                    })
                },
    {
        let mut out: Vec<UserReceiveFileDto> = Vec::new();
        let mut i: usize = 0;
        while i < user.len()
            invariant
                i <= user@.len(),
                out@.len() == i,
                forall|j: int|
                    0 <= j < i ==> {
                        &&& (#[trigger] out@[j]).file_id@ == uuid_str_of(user@[j].file_id)
                        &&& out@[j].file_name@ == user@[j].filename@
                        &&& out@[j].sender_email@ == user@[j].sender_email@
                        &&& out@[j].expiration_date == (match user@[j].expiration_date {
                            Some(t) => t,
                            None => now,
                        })
                        &&& out@[j].created_at == (match user@[j].created_at {
                            Some(t) => t,
                            None => now,
                        })
                    },
            decreases user@.len() - i,
        {
            out.push(Self::filter_receive_user_file(&user[i], now));
            i += 1;
        }
        out
    }
}

#[derive(Debug, Clone)]
pub struct UserReceiveFileListResponseDto {
    pub status: String,
    pub files: Vec<UserReceiveFileDto>,
    pub results: i64,
}

#[derive(Debug, Clone)]
pub struct UserLoginResponseDto {
    pub status: String,
    pub token: String,
}

#[derive(Debug, Clone)]
pub struct Response {
    pub status: &'static str,
    pub message: String,
}

/// Display-name change request.
#[derive(Debug, Default, Clone)]
pub struct NameUpdateDto {
    pub name: String,
}

impl NameUpdateDto {
    pub fn validate(&self) -> (r: Result<(), ValidationError>)
        ensures
            r is Ok <==> self.name@.len() > 0,
            r == Err::<(), ValidationError>(ValidationError::NameEmpty) <==> self.name@.len() == 0,
    {
        if self.name.as_str().is_empty() {
            return Err(ValidationError::NameEmpty);
        }
        Ok(())
    }
}

/// Password change request.
#[derive(Debug, Default, Clone)]
pub struct UserPasswordUpdateDto {
    pub new_password: String,
    pub new_password_confirm: String,
    pub old_password: String,
}

impl UserPasswordUpdateDto {
    pub open spec fn valid(&self) -> bool {
        &&& self.new_password@.len() >= 8
        &&& self.new_password_confirm@.len() >= 8
        &&& self.old_password@.len() >= 8
    }

    pub fn validate(&self) -> (r: Result<(), ValidationError>)
        ensures
            r is Ok <==> self.valid(),
            r == Err::<(), ValidationError>(ValidationError::NewPasswordRequired)
                <==> self.new_password@.len() == 0,
            r == Err::<(), ValidationError>(ValidationError::NewPasswordTooShort) <==> 0
                < self.new_password@.len() < 8,
            r == Err::<(), ValidationError>(ValidationError::NewPasswordConfirmRequired) <==> (
            self.new_password@.len() >= 8 && self.new_password_confirm@.len() == 0),
            r == Err::<(), ValidationError>(ValidationError::NewPasswordConfirmTooShort) <==> (
            self.new_password@.len() >= 8 && 0 < self.new_password_confirm@.len() < 8),
            r == Err::<(), ValidationError>(ValidationError::OldPasswordRequired) <==> (
            self.new_password@.len() >= 8 && self.new_password_confirm@.len() >= 8
                && self.old_password@.len() == 0),
            r == Err::<(), ValidationError>(ValidationError::OldPasswordTooShort) <==> (
            self.new_password@.len() >= 8 && self.new_password_confirm@.len() >= 8 && 0
                < self.old_password@.len() < 8),
    {
        if self.new_password.as_str().is_empty() {
            return Err(ValidationError::NewPasswordRequired);
        }
        if self.new_password.as_str().unicode_len() < 8 {
            return Err(ValidationError::NewPasswordTooShort);
        }
        if self.new_password_confirm.as_str().is_empty() {
            return Err(ValidationError::NewPasswordConfirmRequired);
        }
        if self.new_password_confirm.as_str().unicode_len() < 8 {
            return Err(ValidationError::NewPasswordConfirmTooShort);
        }
        if self.old_password.as_str().is_empty() {
            return Err(ValidationError::OldPasswordRequired);
        }
        if self.old_password.as_str().unicode_len() < 8 {
            return Err(ValidationError::OldPasswordTooShort);
        }
        Ok(())
    }
}

/// Address-book search by email.
#[derive(Debug, Default, Clone)]
pub struct SearchQueryByEmailDto {
    pub email: String,
}

impl SearchQueryByEmailDto {
    pub fn validate(&self) -> (r: Result<(), ValidationError>)
        ensures
            r is Ok <==> (self.email@.len() > 0 && email_ok(self.email@)),
            r == Err::<(), ValidationError>(ValidationError::EmailRequired) <==> self.email@.len()
                == 0,
            r == Err::<(), ValidationError>(ValidationError::InvalidEmailFormat) <==> (
            self.email@.len() > 0 && !email_ok(self.email@)),
    {
        if self.email.as_str().is_empty() {
            return Err(ValidationError::EmailRequired);
        }
        if !is_valid_email(self.email.as_str()) {
            return Err(ValidationError::InvalidEmailFormat);
        }
        Ok(())
    }
}

/// A bare email in a listing.
#[derive(Debug, Default, Clone)]
pub struct FilterEmailDto {
    pub email: String,
}

impl FilterEmailDto {
    pub fn filter_email(user: &User) -> (r: Self)
        ensures
            r.email@ == user.email@,
    {
        FilterEmailDto { email: user.email.clone() }
    }

    #[verifier::loop_isolation(false)]
    pub fn filter_emails(user: &[User]) -> (r: Vec<Self>)
        ensures
            r@.len() == user@.len(),
            forall|i: int| 0 <= i < user@.len() ==> (#[trigger] r@[i]).email@ == user@[i].email@,
    {
        let mut out: Vec<FilterEmailDto> = Vec::new();
        let mut i: usize = 0;
        while i < user.len()
            invariant
                i <= user@.len(),
                out@.len() == i,
                forall|j: int| 0 <= j < i ==> (#[trigger] out@[j]).email@ == user@[j].email@,
            decreases user@.len() - i,
        {
            out.push(Self::filter_email(&user[i]));
            i += 1;
        }
        out
    }
}

#[derive(Debug, Clone)]
pub struct EmailListResponseDto {
    pub status: String,
    pub emails: Vec<FilterEmailDto>,
}

/// Upload request accompanying the file bytes.
#[derive(Debug, Clone, Default)]
pub struct FileUploadDtos {
    pub recipient_email: String,
    pub password: String,
    pub expiration_date: String,
}

impl FileUploadDtos {
    pub open spec fn valid(&self, now: EpochMs) -> bool {
        &&& email_ok(self.recipient_email@)
        &&& self.password@.len() >= 8
        &&& expiration_date_valid(self.expiration_date@, now)
    }

    /// Validate an upload request against the current time: recipient
    /// address well-formed, link password long enough, expiration strictly
    /// in the future.
    pub fn validate(&self, now: EpochMs) -> (r: Result<(), ValidationError>)
        ensures
            r is Ok <==> self.valid(now),
            r == Err::<(), ValidationError>(ValidationError::InvalidEmailFormat) <==> !email_ok(
                self.recipient_email@,
            ),
            r == Err::<(), ValidationError>(ValidationError::NewPasswordRequired) <==> (email_ok(
                self.recipient_email@,
            ) && self.password@.len() == 0),
            r == Err::<(), ValidationError>(ValidationError::NewPasswordTooShort) <==> (email_ok(
                self.recipient_email@,
            ) && 0 < self.password@.len() < 8),
            r == Err::<(), ValidationError>(ValidationError::ExpirationDateRequired) <==> (
            email_ok(self.recipient_email@) && self.password@.len() >= 8
                && self.expiration_date@.len() == 0),
            r == Err::<(), ValidationError>(ValidationError::InvalidDateFormat) <==> (email_ok(
                self.recipient_email@,
            ) && self.password@.len() >= 8 && self.expiration_date@.len() > 0
                && crate::validation::rfc3339_epoch_ms(self.expiration_date@) is None),
            r == Err::<(), ValidationError>(ValidationError::ExpirationNotInFuture) <==> (
            email_ok(self.recipient_email@) && self.password@.len() >= 8
                && self.expiration_date@.len() > 0 && (crate::validation::rfc3339_epoch_ms(
                self.expiration_date@,
            ) matches Some(t) && t <= now)),
    {
        if !is_valid_email(self.recipient_email.as_str()) {
            return Err(ValidationError::InvalidEmailFormat);
        }
        if self.password.as_str().is_empty() {
            return Err(ValidationError::NewPasswordRequired);
        }
        if self.password.as_str().unicode_len() < 8 {
            return Err(ValidationError::NewPasswordTooShort);
        }
        validate_expiration_date(self.expiration_date.as_str(), now)
    }
}

/// Retrieval request presented by a link recipient.
#[derive(Debug, Clone, Default)]
pub struct RetrieverFileDto {
    pub shared_id: String,
    pub password: String,
}

impl RetrieverFileDto {
    pub open spec fn valid(&self) -> bool {
        &&& self.shared_id@.len() > 0
        &&& self.password@.len() >= 8
    }

    pub fn validate(&self) -> (r: Result<(), ValidationError>)
        ensures
            r is Ok <==> self.valid(),
            r == Err::<(), ValidationError>(ValidationError::SharedIdRequired)
                <==> self.shared_id@.len() == 0,
            r == Err::<(), ValidationError>(ValidationError::PasswordRequired) <==> (
            self.shared_id@.len() > 0 && self.password@.len() == 0),
            r == Err::<(), ValidationError>(ValidationError::PasswordTooShort) <==> (
            self.shared_id@.len() > 0 && 0 < self.password@.len() < 8),
    {
        if self.shared_id.as_str().is_empty() {
            return Err(ValidationError::SharedIdRequired);
        }
        if self.password.as_str().is_empty() {
            return Err(ValidationError::PasswordRequired);
        }
        if self.password.as_str().unicode_len() < 8 {
            return Err(ValidationError::PasswordTooShort);
        }
        Ok(())
    }
}

} // verus!
