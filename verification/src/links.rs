use vstd::prelude::*;

verus! {

use vstd::string::StringSliceAdditionalSpecFns;
use crate::EpochMs;
use crate::spec_is_expired;
use crate::is_expired;
use crate::crypto::{EnvelopeCipher, hash_password, verify_password, is_envelope_of, sha256_of};
use crate::errors::{AuthError, CreateLinkError};
use crate::ids::{random_id, uuid_string};
use crate::models::ShareLink;
use crate::store::{
    Store,
    has_file_id,
    file_with_id,
    has_link_id,
    link_with_id,
};

/// What a recipient receives on a successful retrieval: the decrypted bytes
/// and the file's metadata.
#[derive(Debug)]
pub struct FetchedFile {
    pub plaintext: Vec<u8>,
    pub filename: String,
    pub filetype: String,
}

/// The link with this id exists and its expiration is still in the future
/// at `now`.  Validity is computed against the current time at every read:
/// an expired link is invalid at once, whether or not it has been purged.
pub open spec fn link_live(links: Seq<ShareLink>, id: u128, now: EpochMs) -> bool {
    has_link_id(links, id) && !spec_is_expired(link_with_id(links, id).expires_at, now)
}

/// The supplied attempt passes the link's password gate: a link without a
/// password admits any attempt, a gated one only an attempt whose salted
/// digest equals the stored one.
pub open spec fn password_passes(l: ShareLink, attempt_bytes: Seq<u8>) -> bool {
    match l.password {
        None => true,
        Some(h) => h.digest@ == sha256_of(h.salt@ + attempt_bytes),
    }
}

/// The link appended by `create_link`: the given bindings, a 36-character
/// opaque token, and — when a password was supplied — a salted hash of it;
/// the plaintext password is not stored.
pub open spec fn created_link_matches(
    l: ShareLink,
    id: u128,
    file_id: u128,
    recipient_user_id: Option<u128>,
    password: Option<&str>,
    expires_at: EpochMs,
    now: EpochMs,
) -> bool {
    &&& l.id == id
    &&& l.file_id == file_id
    &&& l.recipient_user_id == recipient_user_id
    &&& l.expires_at == expires_at
    &&& l.created_at == Some(now)
    &&& l.link@.len() == 36
    &&& match password {
        None => l.password is None,
        Some(p) => l.password matches Some(h) && h.wf() && h.matches_password(p.spec_bytes()),
    }
}

impl Store {
    /// Index of the link with this id, if any.
    #[verifier::loop_isolation(false)]
    fn find_link_index(&self, link_id: u128) -> (r: Option<usize>)
        requires
            self.wf(),
        ensures
            r matches Some(i) ==> i < self.links@.len() && self.links@[i as int].id == link_id
                && self.links@[i as int] == link_with_id(self.links@, link_id) && has_link_id(
                self.links@,
                link_id,
            ),
            r is None ==> !has_link_id(self.links@, link_id),
    {
        let mut i: usize = 0;
        while i < self.links.len()
            invariant
                i <= self.links@.len(),
                forall|j: int| 0 <= j < i ==> #[trigger] self.links@[j].id != link_id,
            decreases self.links@.len() - i,
        {
            if self.links[i].id == link_id {
                proof {
                    let w = choose|w: int|
                        0 <= w < self.links@.len() && #[trigger] self.links@[w].id == link_id;
                    assert(w == i);
                }
                return Some(i);
            }
            i += 1;
        }
        None
    }

    /// Mint a share link over an existing file.  The expiration must be
    /// strictly in the future at creation time; a supplied password is
    /// salted and hashed before storage, never persisted in plaintext.  The
    /// link is durably in the table before the id is handed back, so no
    /// authorization can observe a half-created link.
    pub fn create_link(
        &mut self,
        file_id: u128,
        recipient_user_id: Option<u128>,
        password: Option<&str>,
        expires_at: EpochMs,
        now: EpochMs,
    ) -> (r: Result<u128, CreateLinkError>)
        requires
            old(self).wf(),
        ensures
            final(self).wf(),
            final(self).users@ == old(self).users@,
            final(self).files@ == old(self).files@,
            r is Err ==> final(self).links@ == old(self).links@,
            r == Err::<u128, CreateLinkError>(CreateLinkError::ExpirationNotInFuture)
                <==> spec_is_expired(expires_at, now),
            r == Err::<u128, CreateLinkError>(CreateLinkError::FileNotFound) <==> (
            !spec_is_expired(expires_at, now) && !has_file_id(old(self).files@, file_id)),
            r matches Ok(id) ==> !spec_is_expired(expires_at, now) && has_file_id(
                old(self).files@,
                file_id,
            ) && !has_link_id(old(self).links@, id) && final(self).links@.len() == old(
                self,
            ).links@.len() + 1 && final(self).links@.subrange(0, old(self).links@.len() as int)
                =~= old(self).links@ && created_link_matches(
                final(self).links@.last(),
                id,
                file_id,
                recipient_user_id,
                password,
                expires_at,
                now,
            ),
    {
        let id = random_id();
        match self.create_link_with_id(file_id, recipient_user_id, password, expires_at, now, id) {
            Ok(()) => Ok(id),
            Err(e) => Err(e),
        }
    }

    /// The deterministic part of `create_link`, for a caller-supplied link
    /// id: succeeds exactly when the expiration is strictly in the future,
    /// the file exists and the id is fresh.
    #[verifier::loop_isolation(false)]
    pub fn create_link_with_id(
        &mut self,
        file_id: u128,
        recipient_user_id: Option<u128>,
        password: Option<&str>,
        expires_at: EpochMs,
        now: EpochMs,
        id: u128,
    ) -> (r: Result<(), CreateLinkError>)
        requires
            old(self).wf(),
        ensures
            final(self).wf(),
            final(self).users@ == old(self).users@,
            final(self).files@ == old(self).files@,
            r is Ok <==> (!spec_is_expired(expires_at, now) && has_file_id(
                old(self).files@,
                file_id,
            ) && !has_link_id(old(self).links@, id)),
            r is Err ==> final(self).links@ == old(self).links@,
            r == Err::<(), CreateLinkError>(CreateLinkError::ExpirationNotInFuture)
                <==> spec_is_expired(expires_at, now),
            r == Err::<(), CreateLinkError>(CreateLinkError::FileNotFound) <==> (
            !spec_is_expired(expires_at, now) && !has_file_id(old(self).files@, file_id)),
            r is Ok ==> final(self).links@.len() == old(self).links@.len() + 1 && final(
                self
            ).links@.subrange(0, old(self).links@.len() as int) =~= old(self).links@ && created_link_matches(
                final(self).links@.last(),
                id,
                file_id,
                recipient_user_id,
                password,
                expires_at,
                now,
            ),
    {
        if is_expired(expires_at, now) {
            return Err(CreateLinkError::ExpirationNotInFuture);
        }
        if self.load(file_id).is_none() {
            return Err(CreateLinkError::FileNotFound);
        }
        let mut i: usize = 0;
        while i < self.links.len()
            invariant
                i <= self.links@.len(),
                forall|j: int| 0 <= j < i ==> #[trigger] self.links@[j].id != id,
            decreases self.links@.len() - i,
        {
            if self.links[i].id == id {
                return Err(CreateLinkError::IdCollision);
            }
            i += 1;
        }
        let hashed = match password {
            Some(p) => Some(hash_password(p)),
            None => None,
        };
        let token = uuid_string(random_id());
        let record = ShareLink {
            id,
            file_id,
            recipient_user_id,
            password: hashed,
            link: token,
            expires_at,
            created_at: Some(now),
        };
        self.links.push(record);
        proof {
            let ls = self.links@;
            assert forall|a: int, b: int|
                #![trigger ls[a].id, ls[b].id]
                0 <= a < b < ls.len() implies ls[a].id != ls[b].id by {
                if b == ls.len() - 1 {
                    assert(ls[a] == old(self).links@[a]);
                }
            }
            assert forall|k: int|
                0 <= k < ls.len() implies has_file_id(self.files@, #[trigger] ls[k].file_id) by {
                if k < ls.len() - 1 {
                    assert(ls[k] == old(self).links@[k]);
                    assert(has_file_id(old(self).files@, ls[k].file_id));
                }
            }
        }
        Ok(())
    }

    /// The authorization gate, the only path to file bytes.  Looks the link
    /// up, applies the shared expiration predicate against `now`, verifies
    /// the password gate, then decrypts and returns the bytes with the
    /// file's metadata.  An absent, purged or expired link yields the same
    /// `NotFound`, so probing clients cannot observe a link's lifecycle.
    /// Links are multi-use: a successful fetch does not consume the link,
    /// which stays valid until it expires or is revoked.
    pub fn authorize_and_fetch(
        &self,
        cipher: &EnvelopeCipher,
        link_id: u128,
        password_attempt: &str,
        now: EpochMs,
    ) -> (r: Result<FetchedFile, AuthError>)
        requires
            self.wf(),
            cipher.wf(),
        ensures
            !link_live(self.links@, link_id, now) ==> r == Err::<FetchedFile, AuthError>(
                AuthError::NotFound,
            ),
            link_live(self.links@, link_id, now) && !password_passes(
                link_with_id(self.links@, link_id),
                password_attempt.spec_bytes(),
            ) ==> r == Err::<FetchedFile, AuthError>(AuthError::InvalidPassword),
            link_live(self.links@, link_id, now) && password_passes(
                link_with_id(self.links@, link_id),
                password_attempt.spec_bytes(),
            ) ==> ({
                let f = file_with_id(self.files@, link_with_id(self.links@, link_id).file_id);
                &&& (forall|q: Seq<u8>|
                    is_envelope_of(
                        cipher.master(),
                        f.encrypted_file@,
                        f.encrypted_aes_key@,
                        f.iv@,
                        q,
                    ) ==> (r matches Ok(ff) && ff.plaintext@ == q))
                &&& (r matches Ok(ff) ==> is_envelope_of(
                    cipher.master(),
                    f.encrypted_file@,
                    f.encrypted_aes_key@,
                    f.iv@,
                    ff.plaintext@,
                ) && ff.filename@ == f.filename@ && ff.filetype@ == f.filetype@)
                &&& (r is Err ==> r == Err::<FetchedFile, AuthError>(AuthError::DecryptionFailed))
            }),
    {
        let idx = match self.find_link_index(link_id) {
            None => {
                return Err(AuthError::NotFound);
            },
            Some(i) => i,
        };
        let l = &self.links[idx];
        if is_expired(l.expires_at, now) {
            return Err(AuthError::NotFound);
        }
        match &l.password {
            Some(h) => {
                if !verify_password(password_attempt, h) {
                    return Err(AuthError::InvalidPassword);
                }
            },
            None => {},
        }
        let fopt = self.load(l.file_id);
        proof {
            assert(has_file_id(self.files@, l.file_id));
            assert(fopt is Some);
        }
        let f = fopt.unwrap();
        proof {
            let w = choose|w: int|
                0 <= w < self.files@.len() && #[trigger] self.files@[w].id == l.file_id;
            assert(self.files@[w].wf());
        }
        match cipher.decrypt(
            f.encrypted_file.as_slice(),
            f.encrypted_aes_key.as_slice(),
            f.iv.as_slice(),
        ) {
            Ok(p) => Ok(
                FetchedFile {
                    plaintext: p,
                    filename: f.filename.clone(),
                    filetype: f.filetype.clone(),
                },
            ),
            Err(_) => Err(AuthError::DecryptionFailed),
        }
    }

    /// Revoke a link.  Permitted only to the owner of the underlying file;
    /// the link is removed outright, independent of its expiration, and a
    /// later retrieval finds nothing.
    pub fn revoke(&mut self, link_id: u128, requester_id: u128) -> (r: Result<(), AuthError>)
        requires
            old(self).wf(),
        ensures
            final(self).wf(),
            final(self).users@ == old(self).users@,
            final(self).files@ == old(self).files@,
            r is Err ==> final(self).links@ == old(self).links@,
            r == Err::<(), AuthError>(AuthError::NotFound) <==> !has_link_id(
                old(self).links@,
                link_id,
            ),
            r == Err::<(), AuthError>(AuthError::Forbidden) <==> (has_link_id(
                old(self).links@,
                link_id,
            ) && file_with_id(
                old(self).files@,
                link_with_id(old(self).links@, link_id).file_id,
            ).user_id != Some(requester_id)),
            r is Ok <==> (has_link_id(old(self).links@, link_id) && file_with_id(
                old(self).files@,
                link_with_id(old(self).links@, link_id).file_id,
            ).user_id == Some(requester_id)),
            r is Ok ==> !has_link_id(final(self).links@, link_id)
                && final(self).links@.len() == old(self).links@.len() - 1 && (forall|j: int|
                0 <= j < old(self).links@.len() && #[trigger] old(self).links@[j].id != link_id
                    ==> final(self).links@.contains(old(self).links@[j])),
    {
        let idx = match self.find_link_index(link_id) {
            None => {
                return Err(AuthError::NotFound);
            },
            Some(i) => i,
        };
        let file_id = self.links[idx].file_id;
        let fopt = self.load(file_id);
        proof {
            assert(has_file_id(self.files@, file_id));
            assert(fopt is Some);
        }
        let f = fopt.unwrap();
        let owned = match f.user_id {
            Some(u) => u == requester_id,
            None => false,
        };
        if !owned {
            return Err(AuthError::Forbidden);
        }
        let ghost links0 = self.links@;
        self.links.remove(idx);
        proof {
            assert(self.links@ =~= links0.subrange(0, idx as int) + links0.subrange(
                idx + 1,
                links0.len() as int,
            ));
            assert forall|a: int, b: int|
                #![trigger self.links@[a].id, self.links@[b].id]
                0 <= a < b < self.links@.len() implies self.links@[a].id != self.links@[b].id by {
                let a0 = if a < idx { a } else { a + 1 };
                let b0 = if b < idx { b } else { b + 1 };
                assert(self.links@[a] == links0[a0]);
                assert(self.links@[b] == links0[b0]);
            }
            assert forall|k: int|
                0 <= k < self.links@.len() implies has_file_id(
                self.files@,
                #[trigger] self.links@[k].file_id,
            ) by {
                let k0 = if k < idx { k } else { k + 1 };
                assert(self.links@[k] == links0[k0]);
                assert(has_file_id(old(self).files@, links0[k0].file_id));
            }
            assert forall|j: int|
                0 <= j < links0.len() && #[trigger] links0[j].id != link_id implies self.links@.contains(
                links0[j],
            ) by {
                assert(links0[idx as int].id == link_id);
                if j < idx {
                    assert(self.links@[j] == links0[j]);
                } else {
                    assert(j > idx);
                    assert(self.links@[j - 1] == links0[j]);
                }
            }
            assert forall|i: int|
                0 <= i < self.links@.len() implies #[trigger] self.links@[i].id != link_id by {
                let i0 = if i < idx { i } else { i + 1 };
                assert(self.links@[i] == links0[i0]);
                assert(links0[idx as int].id == link_id);
            }
        }
        Ok(())
    }
}

} // verus!
