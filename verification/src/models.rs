use vstd::prelude::*;

verus! {

use crate::EpochMs;
use crate::crypto::PasswordHash;

/// An account that owns zero or more files.  The password field holds only a
/// salted hash, never the plaintext credential.
pub struct User {
    pub id: u128,
    pub username: String,
    pub email: String,
    pub password: String,
    pub public_key: Option<String>,
    pub created_at: Option<EpochMs>,
    pub updated_at: Option<EpochMs>,
}

/// An encrypted blob at rest: ciphertext, wrapped content key and nonce are
/// written together, atomically, and the record is immutable thereafter.
pub struct File {
    pub id: u128,
    /// Owner reference; `None` once the owner is gone — the file may outlive
    /// its owner and still be shareable.
    pub user_id: Option<u128>,
    pub filename: String,
    pub filetype: String,
    /// Plaintext size in bytes.
    pub filesize: i64,
    /// The per-file content key, wrapped under the service master key.
    pub encrypted_aes_key: Vec<u8>,
    pub encrypted_file: Vec<u8>,
    /// The nonce shared by the file seal and the key wrap.
    pub iv: Vec<u8>,
    pub created_at: Option<EpochMs>,
}

impl File {
    /// Shape of an intact record: nonce and wrapped key have the fixed
    /// lengths the cipher produces, and the ciphertext carries the plaintext
    /// plus its 16-byte tag.  A record that breaks this is corrupt and is
    /// never presented for decryption.
    pub open spec fn wf(&self) -> bool {
        &&& self.iv@.len() == 12
        &&& self.encrypted_aes_key@.len() == 48
        &&& 0 <= self.filesize
        &&& self.encrypted_file@.len() == self.filesize + 16
    }
}

/// An access grant over exactly one file: token, optional recipient binding,
/// optional password gate, and a mandatory expiration.  A link whose
/// expiration has passed is logically invalid at once, whether or not the
/// reaper has purged it yet.
pub struct ShareLink {
    pub id: u128,
    pub file_id: u128,
    /// Bound recipient account, or `None` for an anonymous share.
    pub recipient_user_id: Option<u128>,
    /// Salted hash of the link password, or `None` when the link is open.
    pub password: Option<PasswordHash>,
    /// Opaque unguessable token in hyphenated form.
    pub link: String,
    /// Expiration instant.  Policy here: every link expires; permanent links
    /// are not granted.
    pub expires_at: EpochMs,
    pub created_at: Option<EpochMs>,
}

/// One row of the "files I sent" listing: a file joined with one of its
/// links and the recipient's email.  Recomputed from the store on query,
/// never persisted.
#[derive(Clone)]
pub struct SendFileDetails {
    pub file_id: u128,
    pub filename: String,
    pub recipient_email: String,
    pub expiration_date: Option<EpochMs>,
    pub created_at: Option<EpochMs>,
}

/// One row of the "files I received" listing: a file joined with one of its
/// links and the sender's email.  Recomputed from the store on query, never
/// persisted.
#[derive(Clone)]
pub struct ReceiveFileDetails {
    pub file_id: u128,
    pub filename: String,
    pub sender_email: String,
    pub expiration_date: Option<EpochMs>,
    pub created_at: Option<EpochMs>,
}

} // verus!
