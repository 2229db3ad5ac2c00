use vstd::prelude::*;

verus! {

use vstd::slice::slice_to_vec;
use vstd::string::StringSliceAdditionalSpecFns;
use crate::errors::CryptoError;

/// What `aes_gcm::Aes256Gcm` produces for a 32-byte key, a 12-byte nonce and
/// a plaintext.  The value is named, never restated: nothing in this crate
/// recomputes AES-GCM.
pub uninterp spec fn seal_of(key: Seq<u8>, nonce: Seq<u8>, plaintext: Seq<u8>) -> Seq<u8>;

/// What `sha2::Sha256` produces for an input.  Named only; the contracts
/// speak of it, nothing recomputes it.
pub uninterp spec fn sha256_of(data: Seq<u8>) -> Seq<u8>;

/// Relies on `rand::random`: a fresh draw from the thread-local generator.
/// Nothing can be promised of the value.
pub assume_specification<T>[ rand::random::<T> ]() -> (r: T)
    where
        rand::distr::StandardUniform: rand::distr::Distribution<T>,
;

/// Relies on `aes_gcm::Aes256Gcm` through `aead::Aead::encrypt`: the
/// ciphertext is a function of key, nonce and plaintext alone and ends in a
/// 16-byte authentication tag.  The length bound is the crate's `P_MAX`,
/// above which `encrypt` reports an error.
#[verifier::external_body]
fn aead_seal(key: &[u8], nonce: &[u8], plaintext: &[u8]) -> (r: Vec<u8>)
    requires
        key@.len() == 32,
        nonce@.len() == 12,
        plaintext@.len() <= 68719476704,
    ensures
        r@ == seal_of(key@, nonce@, plaintext@),
        r@.len() == plaintext@.len() + 16,
{
    let k = aes_gcm::Key::<aes_gcm::Aes256Gcm>::try_from(key).unwrap();
    let cipher = <aes_gcm::Aes256Gcm as aes_gcm::KeyInit>::new(&k);
    let n = aes_gcm::Nonce::<aes_gcm::aead::consts::U12>::try_from(nonce).unwrap();
    <aes_gcm::Aes256Gcm as aes_gcm::aead::Aead>::encrypt(&cipher, &n, plaintext).unwrap()
}

/// Relies on `aes_gcm::Aes256Gcm` through `aead::Aead::decrypt`: for the same
/// key and nonce, decryption inverts `encrypt`, and what it returns on
/// success is exactly the plaintext whose sealing yields this ciphertext.
#[verifier::external_body]
fn aead_open(key: &[u8], nonce: &[u8], ciphertext: &[u8]) -> (r: Option<Vec<u8>>)
    requires
        key@.len() == 32,
        nonce@.len() == 12,
    ensures
        r matches Some(p) ==> ciphertext@ == seal_of(key@, nonce@, p@),
        r is None ==> forall|p: Seq<u8>| ciphertext@ != #[trigger] seal_of(key@, nonce@, p),
        r matches Some(q) ==> forall|p: Seq<u8>|
            ciphertext@ == #[trigger] seal_of(key@, nonce@, p) ==> q@ == p,
{
    let k = aes_gcm::Key::<aes_gcm::Aes256Gcm>::try_from(key).unwrap();
    let cipher = <aes_gcm::Aes256Gcm as aes_gcm::KeyInit>::new(&k);
    let n = aes_gcm::Nonce::<aes_gcm::aead::consts::U12>::try_from(nonce).unwrap();
    match <aes_gcm::Aes256Gcm as aes_gcm::aead::Aead>::decrypt(&cipher, &n, ciphertext) {
        Ok(p) => Some(p),
        Err(_) => None,
    }
}

/// Relies on `sha2::Sha256`: the digest is a function of the input bytes
/// alone and is 32 bytes long.
#[verifier::external_body]
fn sha256(data: &[u8]) -> (r: Vec<u8>)
    ensures
        r@ == sha256_of(data@),
        r@.len() == 32,
{
    <sha2::Sha256 as sha2::Digest>::digest(data).to_vec()
}

/// Byte-wise equality of two slices.
pub fn bytes_eq(a: &[u8], b: &[u8]) -> (r: bool)
    ensures
        r == (a@ == b@),
{
    if a.len() != b.len() {
        return false;
    }
    let mut i: usize = 0;
    while i < a.len()
        invariant
            i <= a@.len(),
            a@.len() == b@.len(),
            forall|j: int| 0 <= j < i ==> a@[j] == b@[j],
        decreases a@.len() - i,
    {
        if a[i] != b[i] {
            return false;
        }
        i += 1;
    }
    proof {
        assert(a@ =~= b@);
    }
    true
}

/// The concatenation of two byte slices as a fresh vector.
pub fn concat_bytes(a: &[u8], b: &[u8]) -> (r: Vec<u8>)
    ensures
        r@ == a@ + b@,
{
    let mut out: Vec<u8> = slice_to_vec(a);
    let mut i: usize = 0;
    while i < b.len()
        invariant
            i <= b@.len(),
            out@ =~= a@ + b@.subrange(0, i as int),
        decreases b@.len() - i,
    {
        out.push(b[i]);
        i += 1;
    }
    proof {
        assert(out@ =~= a@ + b@);
    }
    out
}

/// A salted one-way hash of a password.  The plaintext password is never
/// stored; only the salt and the digest are.
#[derive(Debug, Clone)]
pub struct PasswordHash {
    pub salt: Vec<u8>,
    pub digest: Vec<u8>,
}

impl PasswordHash {
    pub open spec fn wf(&self) -> bool {
        &&& self.salt@.len() == 16
        &&& self.digest@.len() == 32
    }

    /// The stored digest is the hash of this password under the stored salt.
    pub open spec fn matches_password(&self, password_bytes: Seq<u8>) -> bool {
        self.digest@ == sha256_of(self.salt@ + password_bytes)
    }
}

/// Hash a password under a fresh random 16-byte salt.
pub fn hash_password(password: &str) -> (r: PasswordHash)
    ensures
        r.wf(),
        r.matches_password(password.spec_bytes()),
{
    let salt_arr: [u8; 16] = rand::random();
    let salt = slice_to_vec(salt_arr.as_slice());
    let buf = concat_bytes(salt.as_slice(), password.as_bytes());
    let digest = sha256(buf.as_slice());
    PasswordHash { salt, digest }
}

/// Recompute the salted digest of an attempt and compare it to the stored
/// one.  The comparison is over full fixed-length digests, so its outcome
/// depends on the whole digest, never on a prefix of the password.
pub fn verify_password(password: &str, hash: &PasswordHash) -> (r: bool)
    ensures
        r == hash.matches_password(password.spec_bytes()),
{
    let buf = concat_bytes(hash.salt.as_slice(), password.as_bytes());
    let digest = sha256(buf.as_slice());
    bytes_eq(digest.as_slice(), hash.digest.as_slice())
}

/// The (ciphertext, wrapped key, nonce) triple stored at rest for one file.
#[derive(Debug, Clone)]
pub struct Envelope {
    pub ciphertext: Vec<u8>,
    pub wrapped_key: Vec<u8>,
    pub nonce: Vec<u8>,
}

impl Envelope {
    pub open spec fn wf(&self) -> bool {
        &&& self.nonce@.len() == 12
        &&& self.wrapped_key@.len() == 48
    }
}

/// The triple is a valid envelope of `plaintext` under `master`: some 32-byte
/// content key, wrapped under the master key with this nonce, seals the
/// plaintext into this ciphertext.
pub open spec fn is_envelope_of(
    master: Seq<u8>,
    ciphertext: Seq<u8>,
    wrapped_key: Seq<u8>,
    nonce: Seq<u8>,
    plaintext: Seq<u8>,
) -> bool {
    exists|ck: Seq<u8>|
        ck.len() == 32 && wrapped_key == #[trigger] seal_of(master, nonce, ck) && ciphertext
            == seal_of(ck, nonce, plaintext)
}

/// Some 32-byte content key unwraps from `wrapped_key` under `master`.
pub open spec fn key_unwraps(master: Seq<u8>, wrapped_key: Seq<u8>, nonce: Seq<u8>) -> bool {
    exists|ck: Seq<u8>| ck.len() == 32 && wrapped_key == #[trigger] seal_of(master, nonce, ck)
}

/// Envelope encryption: a fresh random content key per file, sealed file
/// bytes, and the content key wrapped under the service-held master key.
/// The master key is immutable after construction and never exposed.
pub struct EnvelopeCipher {
    master_key: Vec<u8>,
}

impl EnvelopeCipher {
    pub closed spec fn wf(&self) -> bool {
        self.master_key@.len() == 32
    }

    /// The master key as a mathematical value, for contracts only.
    pub closed spec fn master(&self) -> Seq<u8> {
        self.master_key@
    }

    /// Construct the cipher from a 32-byte master key obtained at startup.
    pub fn new(master_key: Vec<u8>) -> (r: Self)
        requires
            master_key@.len() == 32,
        ensures
            r.wf(),
            r.master() == master_key@,
    {
        EnvelopeCipher { master_key }
    }

    /// Construct the cipher with a fresh random master key.
    pub fn generate() -> (r: Self)
        ensures
            r.wf(),
    {
        let mk: [u8; 32] = rand::random();
        EnvelopeCipher { master_key: slice_to_vec(mk.as_slice()) }
    }

    /// Encrypt file bytes under a fresh random content key and wrap that key
    /// under the master key.  The returned triple is a valid envelope of the
    /// plaintext, which is what `decrypt` requires to recover it.
    pub fn encrypt(&self, plaintext: &[u8]) -> (r: Envelope)
        requires
            self.wf(),
            plaintext@.len() <= 68719476704,
        ensures
            r.wf(),
            is_envelope_of(self.master(), r.ciphertext@, r.wrapped_key@, r.nonce@, plaintext@),
            r.ciphertext@.len() == plaintext@.len() + 16,
    {
        let ck: [u8; 32] = rand::random();
        let nonce: [u8; 12] = rand::random();
        let wrapped_key = aead_seal(self.master_key.as_slice(), nonce.as_slice(), ck.as_slice());
        let ciphertext = aead_seal(ck.as_slice(), nonce.as_slice(), plaintext);
        let env = Envelope { ciphertext, wrapped_key, nonce: slice_to_vec(nonce.as_slice()) };
        proof {
            assert(env.wrapped_key@ == seal_of(self.master(), env.nonce@, ck@));
            assert(env.ciphertext@ == seal_of(ck@, env.nonce@, plaintext@));
        }
        env
    }

    /// Unwrap the content key and decrypt the ciphertext.  Succeeds exactly
    /// on valid envelopes, and then returns the unique plaintext they
    /// envelope; a failed key unwrap and a failed tag check are reported
    /// apart for internal logging only.
    pub fn decrypt(&self, ciphertext: &[u8], wrapped_key: &[u8], nonce: &[u8]) -> (r: Result<
        Vec<u8>,
        CryptoError,
    >)
        requires
            self.wf(),
            nonce@.len() == 12,
        ensures
            r matches Ok(p) ==> is_envelope_of(
                self.master(),
                ciphertext@,
                wrapped_key@,
                nonce@,
                p@,
            ),
            forall|q: Seq<u8>|
                is_envelope_of(self.master(), ciphertext@, wrapped_key@, nonce@, q) ==> (r matches Ok(
                    p,
                ) && p@ == q),
            r matches Err(e) ==> ((e == CryptoError::InvalidKey) <==> !key_unwraps(
                self.master(),
                wrapped_key@,
                nonce@,
            )),
    {
        match aead_open(self.master_key.as_slice(), nonce, wrapped_key) {
            None => {
                proof {
                    if key_unwraps(self.master(), wrapped_key@, nonce@) {
                        let ck0 = choose|ck0: Seq<u8>|
                            ck0.len() == 32 && wrapped_key@ == #[trigger] seal_of(
                                self.master(),
                                nonce@,
                                ck0,
                            );
                        assert(wrapped_key@ == seal_of(self.master(), nonce@, ck0));
                        assert(false);
                    }
                    assert forall|q: Seq<u8>|
                        !is_envelope_of(
                            self.master(),
                            ciphertext@,
                            wrapped_key@,
                            nonce@,
                            q,
                        ) by {
                        if is_envelope_of(self.master(), ciphertext@, wrapped_key@, nonce@, q) {
                            let ck1 = choose|ck1: Seq<u8>|
                                ck1.len() == 32 && wrapped_key@ == #[trigger] seal_of(
                                    self.master(),
                                    nonce@,
                                    ck1,
                                ) && ciphertext@ == seal_of(ck1, nonce@, q);
                            assert(wrapped_key@ == seal_of(self.master(), nonce@, ck1));
                            assert(false);
                        }
                    }
                }
                Err(CryptoError::InvalidKey)
            },
            Some(ck) => {
                if ck.len() != 32 {
                    proof {
                        if key_unwraps(self.master(), wrapped_key@, nonce@) {
                            let ck0 = choose|ck0: Seq<u8>|
                                ck0.len() == 32 && wrapped_key@ == #[trigger] seal_of(
                                    self.master(),
                                    nonce@,
                                    ck0,
                                );
                            assert(wrapped_key@ == seal_of(self.master(), nonce@, ck0));
                            assert(ck@ == ck0);
                            assert(false);
                        }
                        assert forall|q: Seq<u8>|
                            !is_envelope_of(
                                self.master(),
                                ciphertext@,
                                wrapped_key@,
                                nonce@,
                                q,
                            ) by {
                            if is_envelope_of(
                                self.master(),
                                ciphertext@,
                                wrapped_key@,
                                nonce@,
                                q,
                            ) {
                                let ck1 = choose|ck1: Seq<u8>|
                                    ck1.len() == 32 && wrapped_key@ == #[trigger] seal_of(
                                        self.master(),
                                        nonce@,
                                        ck1,
                                    ) && ciphertext@ == seal_of(ck1, nonce@, q);
                                assert(wrapped_key@ == seal_of(self.master(), nonce@, ck1));
                                assert(false);
                            }
                        }
                    }
                    Err(CryptoError::InvalidKey)
                } else {
                    match aead_open(ck.as_slice(), nonce, ciphertext) {
                        None => {
                            proof {
                                assert(wrapped_key@ == seal_of(self.master(), nonce@, ck@));
                                assert(key_unwraps(self.master(), wrapped_key@, nonce@));
                                assert forall|q: Seq<u8>|
                                    !is_envelope_of(
                                        self.master(),
                                        ciphertext@,
                                        wrapped_key@,
                                        nonce@,
                                        q,
                                    ) by {
                                    if is_envelope_of(
                                        self.master(),
                                        ciphertext@,
                                        wrapped_key@,
                                        nonce@,
                                        q,
                                    ) {
                                        let ck1 = choose|ck1: Seq<u8>|
                                            ck1.len() == 32 && wrapped_key@ == #[trigger] seal_of(
                                                self.master(),
                                                nonce@,
                                                ck1,
                                            ) && ciphertext@ == seal_of(ck1, nonce@, q);
                                        assert(wrapped_key@ == seal_of(self.master(), nonce@, ck1));
                                        assert(ck@ == ck1);
                                        assert(ciphertext@ == seal_of(ck@, nonce@, q));
                                        assert(false);
                                    }
                                }
                            }
                            Err(CryptoError::AuthenticationFailed)
                        },
                        Some(p) => {
                            proof {
                                assert(wrapped_key@ == seal_of(self.master(), nonce@, ck@));
                                assert(ciphertext@ == seal_of(ck@, nonce@, p@));
                                assert(is_envelope_of(
                                    self.master(),
                                    ciphertext@,
                                    wrapped_key@,
                                    nonce@,
                                    p@,
                                ));
                                assert forall|q: Seq<u8>|
                                    is_envelope_of(
                                        self.master(),
                                        ciphertext@,
                                        wrapped_key@,
                                        nonce@,
                                        q,
                                    ) implies p@ == q by {
                                    let ck1 = choose|ck1: Seq<u8>|
                                        ck1.len() == 32 && wrapped_key@ == #[trigger] seal_of(
                                            self.master(),
                                            nonce@,
                                            ck1,
                                        ) && ciphertext@ == seal_of(ck1, nonce@, q);
                                    assert(wrapped_key@ == seal_of(self.master(), nonce@, ck1));
                                    assert(ck@ == ck1);
                                    assert(ciphertext@ == seal_of(ck@, nonce@, q));
                                }
                            }
                            Ok(p)
                        },
                    }
                }
            },
        }
    }
}

} // verus!
