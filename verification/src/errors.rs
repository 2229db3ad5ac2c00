use vstd::prelude::*;

verus! {

/// Failure of the envelope cipher.  The two variants are kept apart for
/// internal logging; callers outside the trust boundary receive them through
/// `AuthError::DecryptionFailed`, so neither leaks to a client.
#[derive(Debug, Clone, Copy, PartialEq, Eq, Structural)]
pub enum CryptoError {
    /// The authentication tag over the file ciphertext did not verify.
    AuthenticationFailed,
    /// The wrapped content key could not be unwrapped under the master key.
    InvalidKey,
}

/// Outcome of a failed authorization on retrieval or revocation.
#[derive(Debug, Clone, Copy, PartialEq, Eq, Structural)]
pub enum AuthError {
    /// The link does not exist, was purged, or is past its expiration.
    /// Expired and never-existed links are deliberately indistinguishable.
    NotFound,
    /// A password is set on the link and the supplied attempt did not match.
    InvalidPassword,
    /// The requester does not own the file behind the link.
    Forbidden,
    /// The stored record could not be decrypted: corruption or tampering.
    DecryptionFailed,
}

/// Rejection of a malformed input, surfaced directly to the caller.
#[derive(Debug, Clone, Copy, PartialEq, Eq, Structural)]
pub enum ValidationError {
    UsernameEmpty,
    EmailRequired,
    InvalidEmailFormat,
    PasswordRequired,
    PasswordTooShort,
    PasswordConfirmEmpty,
    PasswordConfirmMismatch,
    NameEmpty,
    NewPasswordRequired,
    NewPasswordTooShort,
    NewPasswordConfirmRequired,
    NewPasswordConfirmTooShort,
    OldPasswordRequired,
    OldPasswordTooShort,
    SharedIdRequired,
    PageOutOfRange,
    LimitOutOfRange,
    ExpirationDateRequired,
    InvalidDateFormat,
    ExpirationNotInFuture,
}

/// Failure of `create_link`.
#[derive(Debug, Clone, Copy, PartialEq, Eq, Structural)]
pub enum CreateLinkError {
    /// The requested expiration is not strictly in the future.
    ExpirationNotInFuture,
    /// The target file does not exist in the store.
    FileNotFound,
    /// The freshly drawn link id collided with an existing one; the caller
    /// may simply retry.
    IdCollision,
}

/// Failure of a store mutation.
#[derive(Debug, Clone, Copy, PartialEq, Eq, Structural)]
pub enum StoreError {
    /// The freshly drawn file id collided with an existing one; the caller
    /// may simply retry.
    IdCollision,
    /// The email is already registered; emails are globally unique.
    EmailTaken,
}

impl ValidationError {
    /// The human-readable rejection message for this error, pinned per
    /// variant.
    pub fn message(&self) -> (r: String)
        ensures
            r@.len() > 0,
            *self == ValidationError::UsernameEmpty ==> r@ == "Username must not be empty"@,
            *self == ValidationError::EmailRequired ==> r@ == "Email is required"@,
            *self == ValidationError::InvalidEmailFormat ==> r@ == "Invalid email format"@,
            *self == ValidationError::PasswordRequired ==> r@ == "Password is required"@,
            *self == ValidationError::PasswordTooShort ==> r@
                == "Password must be at least 8 characters long"@,
            *self == ValidationError::PasswordConfirmEmpty ==> r@
                == "Confirm Password must not be empty"@,
            *self == ValidationError::PasswordConfirmMismatch ==> r@
                == "Confirm Password must match Password"@,
            *self == ValidationError::NameEmpty ==> r@ == "Name must not be empty"@,
            *self == ValidationError::NewPasswordRequired ==> r@ == "New password is required"@,
            *self == ValidationError::NewPasswordTooShort ==> r@
                == "New password must be at least 8 characters long"@,
            *self == ValidationError::NewPasswordConfirmRequired ==> r@
                == "New confirm password is required"@,
            *self == ValidationError::NewPasswordConfirmTooShort ==> r@
                == "New confirm password must be at least 8 characters long"@,
            *self == ValidationError::OldPasswordRequired ==> r@ == "Old password is required"@,
            *self == ValidationError::OldPasswordTooShort ==> r@
                == "Old password must be at least 8 characters long"@,
            *self == ValidationError::SharedIdRequired ==> r@ == "Shared id is required"@,
            *self == ValidationError::PageOutOfRange ==> r@ == "Page must be at least 1"@,
            *self == ValidationError::LimitOutOfRange ==> r@
                == "Limit must be between 1 and 50"@,
            *self == ValidationError::ExpirationDateRequired ==> r@
                == "Expiration date is required."@,
            *self == ValidationError::InvalidDateFormat ==> r@
                == "Invalid date format. Expected format is YYYY-MM-DDTHH:MM:SS.ssssssZ."@,
            *self == ValidationError::ExpirationNotInFuture ==> r@
                == "Expiration date must be in the future."@,
    {
        let s: &str = match self {
            ValidationError::UsernameEmpty => "Username must not be empty",
            ValidationError::EmailRequired => "Email is required",
            ValidationError::InvalidEmailFormat => "Invalid email format",
            ValidationError::PasswordRequired => "Password is required",
            ValidationError::PasswordTooShort => "Password must be at least 8 characters long",
            ValidationError::PasswordConfirmEmpty => "Confirm Password must not be empty",
            ValidationError::PasswordConfirmMismatch => "Confirm Password must match Password",
            ValidationError::NameEmpty => "Name must not be empty",
            ValidationError::NewPasswordRequired => "New password is required",
            ValidationError::NewPasswordTooShort => "New password must be at least 8 characters long",
            ValidationError::NewPasswordConfirmRequired => "New confirm password is required",
            ValidationError::NewPasswordConfirmTooShort => "New confirm password must be at least 8 characters long",
            ValidationError::OldPasswordRequired => "Old password is required",
            ValidationError::OldPasswordTooShort => "Old password must be at least 8 characters long",
            ValidationError::SharedIdRequired => "Shared id is required",
            ValidationError::PageOutOfRange => "Page must be at least 1",
            ValidationError::LimitOutOfRange => "Limit must be between 1 and 50",
            ValidationError::ExpirationDateRequired => "Expiration date is required.",
            ValidationError::InvalidDateFormat => "Invalid date format. Expected format is YYYY-MM-DDTHH:MM:SS.ssssssZ.",
            ValidationError::ExpirationNotInFuture => "Expiration date must be in the future.",
        };
        proof {
            reveal_strlit("Username must not be empty");
            reveal_strlit("Email is required");
            reveal_strlit("Invalid email format");
            reveal_strlit("Password is required");
            reveal_strlit("Password must be at least 8 characters long");
            reveal_strlit("Confirm Password must not be empty");
            reveal_strlit("Confirm Password must match Password");
            reveal_strlit("Name must not be empty");
            reveal_strlit("New password is required");
            reveal_strlit("New password must be at least 8 characters long");
            reveal_strlit("New confirm password is required");
            reveal_strlit("New confirm password must be at least 8 characters long");
            reveal_strlit("Old password is required");
            reveal_strlit("Old password must be at least 8 characters long");
            reveal_strlit("Shared id is required");
            reveal_strlit("Page must be at least 1");
            reveal_strlit("Limit must be between 1 and 50");
            reveal_strlit("Expiration date is required.");
            reveal_strlit("Invalid date format. Expected format is YYYY-MM-DDTHH:MM:SS.ssssssZ.");
            reveal_strlit("Expiration date must be in the future.");
        }
        s.to_owned()
    }
}

} // verus!
