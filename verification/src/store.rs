use vstd::prelude::*;

verus! {

use crate::EpochMs;
use crate::crypto::{EnvelopeCipher, is_envelope_of};
use crate::errors::StoreError;
use crate::ids::random_id;
use crate::models::{File, ShareLink, User};
use crate::seq_util::{lemma_filter_char, lemma_filter_distinct_keys, lemma_filter_push};

// ---------------------------------------------------------------------------
// Lookup predicates over the three tables.
// ---------------------------------------------------------------------------

pub open spec fn has_user_id(users: Seq<User>, id: u128) -> bool {
    exists|i: int| 0 <= i < users.len() && #[trigger] users[i].id == id
}

pub open spec fn has_user_email(users: Seq<User>, email: Seq<char>) -> bool {
    exists|i: int| 0 <= i < users.len() && #[trigger] users[i].email@ == email
}

pub open spec fn user_with_id(users: Seq<User>, id: u128) -> User {
    users[choose|i: int| 0 <= i < users.len() && #[trigger] users[i].id == id]
}

pub open spec fn has_file_id(files: Seq<File>, id: u128) -> bool {
    exists|i: int| 0 <= i < files.len() && #[trigger] files[i].id == id
}

pub open spec fn file_with_id(files: Seq<File>, id: u128) -> File {
    files[choose|i: int| 0 <= i < files.len() && #[trigger] files[i].id == id]
}

pub open spec fn has_link_id(links: Seq<ShareLink>, id: u128) -> bool {
    exists|i: int| 0 <= i < links.len() && #[trigger] links[i].id == id
}

pub open spec fn link_with_id(links: Seq<ShareLink>, id: u128) -> ShareLink {
    links[choose|i: int| 0 <= i < links.len() && #[trigger] links[i].id == id]
}

pub open spec fn user_ids_unique(users: Seq<User>) -> bool {
    forall|i: int, j: int|
        #![trigger users[i].id, users[j].id]
        0 <= i < j < users.len() ==> users[i].id != users[j].id
}

pub open spec fn user_emails_unique(users: Seq<User>) -> bool {
    forall|i: int, j: int|
        #![trigger users[i].email, users[j].email]
        0 <= i < j < users.len() ==> users[i].email@ != users[j].email@
}

pub open spec fn file_ids_unique(files: Seq<File>) -> bool {
    forall|i: int, j: int|
        #![trigger files[i].id, files[j].id]
        0 <= i < j < files.len() ==> files[i].id != files[j].id
}

pub open spec fn link_ids_unique(links: Seq<ShareLink>) -> bool {
    forall|i: int, j: int|
        #![trigger links[i].id, links[j].id]
        0 <= i < j < links.len() ==> links[i].id != links[j].id
}

pub open spec fn file_id_key() -> spec_fn(File) -> u128 {
    |f: File| f.id
}

pub open spec fn link_id_key() -> spec_fn(ShareLink) -> u128 {
    |l: ShareLink| l.id
}

// ---------------------------------------------------------------------------
// The deletion transforms, stated once and shared by the contracts.
// ---------------------------------------------------------------------------

pub open spec fn file_other_than(file_id: u128) -> spec_fn(File) -> bool {
    |f: File| f.id != file_id
}

pub open spec fn link_not_onto(file_id: u128) -> spec_fn(ShareLink) -> bool {
    |l: ShareLink| l.file_id != file_id
}

/// The file table with the record of `file_id` removed, order kept.
pub open spec fn files_without(files: Seq<File>, file_id: u128) -> Seq<File> {
    files.filter(file_other_than(file_id))
}

/// The link table with every link onto `file_id` removed, order kept: no
/// share link outlives its file.
pub open spec fn links_without_file(links: Seq<ShareLink>, file_id: u128) -> Seq<ShareLink> {
    links.filter(link_not_onto(file_id))
}

// ---------------------------------------------------------------------------
// The single source of truth: three in-memory tables with the relational
// invariant.  All mutations preserve `wf`.
// ---------------------------------------------------------------------------

pub struct Store {
    pub users: Vec<User>,
    pub files: Vec<File>,
    pub links: Vec<ShareLink>,
}

impl Store {
    /// The relational invariant: ids are unique per table, emails are
    /// globally unique, every link points at an existing file, and every
    /// stored file record is intact.
    pub open spec fn wf(&self) -> bool {
        &&& user_ids_unique(self.users@)
        &&& user_emails_unique(self.users@)
        &&& file_ids_unique(self.files@)
        &&& link_ids_unique(self.links@)
        &&& forall|i: int|
            0 <= i < self.links@.len() ==> has_file_id(
                self.files@,
                #[trigger] self.links@[i].file_id,
            )
        &&& forall|i: int| 0 <= i < self.files@.len() ==> (#[trigger] self.files@[i]).wf()
    }

    pub fn new() -> (r: Store)
        ensures
            r.wf(),
            r.users@.len() == 0,
            r.files@.len() == 0,
            r.links@.len() == 0,
    {
        Store { users: Vec::new(), files: Vec::new(), links: Vec::new() }
    }

    /// Insert a user record.  Succeeds exactly when both the id and the
    /// email are fresh; the email is globally unique by invariant.
    #[verifier::loop_isolation(false)]
    pub fn add_user(&mut self, user: User) -> (r: Result<(), StoreError>)
        requires
            old(self).wf(),
        ensures
            final(self).wf(),
            final(self).files@ == old(self).files@,
            final(self).links@ == old(self).links@,
            r is Ok <==> (!has_user_id(old(self).users@, user.id) && !has_user_email(
                old(self).users@,
                user.email@,
            )),
            r is Ok ==> final(self).users@ =~= old(self).users@.push(user),
            r is Err ==> final(self).users@ == old(self).users@,
            r == Err::<(), StoreError>(StoreError::IdCollision) <==> has_user_id(
                old(self).users@,
                user.id,
            ),
    {
        let mut i: usize = 0;
        while i < self.users.len()
            invariant
                i <= self.users@.len(),
                forall|j: int| 0 <= j < i ==> #[trigger] self.users@[j].id != user.id,
            decreases self.users@.len() - i,
        {
            if self.users[i].id == user.id {
                return Err(StoreError::IdCollision);
            }
            i += 1;
        }
        let mut i: usize = 0;
        while i < self.users.len()
            invariant
                i <= self.users@.len(),
                forall|j: int| 0 <= j < i ==> #[trigger] self.users@[j].email@ != user.email@,
            decreases self.users@.len() - i,
        {
            if self.users[i].email == user.email {
                return Err(StoreError::EmailTaken);
            }
            i += 1;
        }
        self.users.push(user);
        proof {
            let us = self.users@;
            assert forall|i: int, j: int|
                #![trigger us[i].id, us[j].id]
                0 <= i < j < us.len() implies us[i].id != us[j].id by {
                if j == us.len() - 1 {
                    assert(us[i] == old(self).users@[i]);
                }
            }
            assert forall|i: int, j: int|
                #![trigger us[i].email, us[j].email]
                0 <= i < j < us.len() implies us[i].email@ != us[j].email@ by {
                if j == us.len() - 1 {
                    assert(us[i] == old(self).users@[i]);
                }
            }
        }
        Ok(())
    }

    /// Encrypt and persist a file in one step: the envelope cipher runs
    /// first, and ciphertext, wrapped key, nonce and metadata are appended
    /// as one record — there is no partial write.  Returns the fresh file
    /// id; reports a collision of the randomly drawn id instead of storing.
    pub fn store_file(
        &mut self,
        cipher: &EnvelopeCipher,
        owner_id: Option<u128>,
        filename: String,
        filetype: String,
        plaintext: &[u8],
        created_at: EpochMs,
    ) -> (r: Result<u128, StoreError>)
        requires
            old(self).wf(),
            cipher.wf(),
            plaintext@.len() <= 68719476704,
        ensures
            final(self).wf(),
            final(self).users@ == old(self).users@,
            final(self).links@ == old(self).links@,
            r matches Ok(id) ==> !has_file_id(old(self).files@, id) && final(self).files@.len()
                == old(self).files@.len() + 1 && final(self).files@.subrange(
                0,
                old(self).files@.len() as int,
            ) =~= old(self).files@ && stored_file_matches(
                final(self).files@.last(),
                id,
                owner_id,
                filename@,
                filetype@,
                plaintext@,
                cipher.master(),
                created_at,
            ),
            r is Err ==> final(self).files@ == old(self).files@ && r == Err::<
                u128,
                StoreError,
            >(StoreError::IdCollision),
    {
        let id = random_id();
        match self.store_file_with_id(cipher, owner_id, filename, filetype, plaintext, created_at, id) {
            Ok(()) => Ok(id),
            Err(e) => Err(e),
        }
    }

    /// The deterministic part of `store_file`, for a caller-supplied id:
    /// succeeds exactly when the id is fresh, and then appends the one
    /// atomic record.
    #[verifier::loop_isolation(false)]
    pub fn store_file_with_id(
        &mut self,
        cipher: &EnvelopeCipher,
        owner_id: Option<u128>,
        filename: String,
        filetype: String,
        plaintext: &[u8],
        created_at: EpochMs,
        id: u128,
    ) -> (r: Result<(), StoreError>)
        requires
            old(self).wf(),
            cipher.wf(),
            plaintext@.len() <= 68719476704,
        ensures
            final(self).wf(),
            final(self).users@ == old(self).users@,
            final(self).links@ == old(self).links@,
            r is Ok <==> !has_file_id(old(self).files@, id),
            r is Ok ==> final(self).files@.len() == old(self).files@.len() + 1 && final(
                self
            ).files@.subrange(0, old(self).files@.len() as int) =~= old(self).files@
                && stored_file_matches(
                final(self).files@.last(),
                id,
                owner_id,
                filename@,
                filetype@,
                plaintext@,
                cipher.master(),
                created_at,
            ),
            r is Err ==> final(self).files@ == old(self).files@ && r == Err::<
                (),
                StoreError,
            >(StoreError::IdCollision),
    {
        let mut i: usize = 0;
        while i < self.files.len()
            invariant
                i <= self.files@.len(),
                forall|j: int| 0 <= j < i ==> #[trigger] self.files@[j].id != id,
            decreases self.files@.len() - i,
        {
            if self.files[i].id == id {
                return Err(StoreError::IdCollision);
            }
            i += 1;
        }
        let env = cipher.encrypt(plaintext);
        let filesize = plaintext.len() as i64;
        let record = File {
            id,
            user_id: owner_id,
            filename,
            filetype,
            filesize,
            encrypted_aes_key: env.wrapped_key,
            encrypted_file: env.ciphertext,
            iv: env.nonce,
            created_at: Some(created_at),
        };
        self.files.push(record);
        proof {
            let fs = self.files@;
            assert forall|a: int, b: int|
                #![trigger fs[a].id, fs[b].id]
                0 <= a < b < fs.len() implies fs[a].id != fs[b].id by {
                if b == fs.len() - 1 {
                    assert(fs[a] == old(self).files@[a]);
                }
            }
            assert forall|k: int|
                0 <= k < self.links@.len() implies has_file_id(
                self.files@,
                #[trigger] self.links@[k].file_id,
            ) by {
                let fid = self.links@[k].file_id;
                assert(has_file_id(old(self).files@, fid));
                let j = choose|j: int|
                    0 <= j < old(self).files@.len() && #[trigger] old(self).files@[j].id == fid;
                assert(self.files@[j].id == fid);
            }
        }
        Ok(())
    }

    /// Look a file up by id.  The store performs no access control here by
    /// design: authorization lives in exactly one place, the share link
    /// manager.
    #[verifier::loop_isolation(false)]
    pub fn load(&self, file_id: u128) -> (r: Option<&File>)
        requires
            self.wf(),
        ensures
            r matches Some(f) ==> has_file_id(self.files@, file_id) && *f == file_with_id(
                self.files@,
                file_id,
            ) && f.id == file_id,
            r is None ==> !has_file_id(self.files@, file_id),
    {
        let mut i: usize = 0;
        while i < self.files.len()
            invariant
                self.wf(),
                i <= self.files@.len(),
                forall|j: int| 0 <= j < i ==> #[trigger] self.files@[j].id != file_id,
            decreases self.files@.len() - i,
        {
            if self.files[i].id == file_id {
                proof {
                    let w = choose|w: int|
                        0 <= w < self.files@.len() && #[trigger] self.files@[w].id == file_id;
                    assert(w == i);
                }
                return Some(&self.files[i]);
            }
            i += 1;
        }
        None
    }

    /// Delete a file and, in the same mutation, every share link that
    /// references it: the cascade is explicit, so no orphaned link can
    /// outlive its file.
    #[verifier::loop_isolation(false)]
    pub fn delete_file(&mut self, file_id: u128)
        requires
            old(self).wf(),
        ensures
            final(self).wf(),
            final(self).users@ == old(self).users@,
            final(self).files@ == files_without(old(self).files@, file_id),
            final(self).links@ == links_without_file(old(self).links@, file_id),
    {
        let ghost files0 = self.files@;
        let ghost links0 = self.links@;
        let mut pending_files: Vec<File> = Vec::new();
        core::mem::swap(&mut self.files, &mut pending_files);
        let ghost mut k: int = 0;
        while pending_files.len() > 0
            invariant
                0 <= k <= files0.len(),
                pending_files@ =~= files0.subrange(k, files0.len() as int),
                self.files@ =~= files_without(files0.subrange(0, k), file_id),
                self.users@ == old(self).users@,
                self.links@ == links0,
            decreases pending_files@.len(),
        {
            let f = pending_files.remove(0);
            proof {
                assert(f == files0[k]);
                assert(files0.subrange(0, k + 1) =~= files0.subrange(0, k).push(files0[k]));
                lemma_filter_push(files0.subrange(0, k), file_other_than(file_id), files0[k]);
                k = k + 1;
            }
            if f.id != file_id {
                self.files.push(f);
            }
        }
        proof {
            assert(files0.subrange(0, files0.len() as int) =~= files0);
            assert(self.files@ =~= files_without(files0, file_id));
        }
        let mut pending_links: Vec<ShareLink> = Vec::new();
        core::mem::swap(&mut self.links, &mut pending_links);
        let ghost mut m: int = 0;
        while pending_links.len() > 0
            invariant
                0 <= m <= links0.len(),
                pending_links@ =~= links0.subrange(m, links0.len() as int),
                self.links@ =~= links_without_file(links0.subrange(0, m), file_id),
                self.users@ == old(self).users@,
                self.files@ == files_without(files0, file_id),
            decreases pending_links@.len(),
        {
            let l = pending_links.remove(0);
            proof {
                assert(l == links0[m]);
                assert(links0.subrange(0, m + 1) =~= links0.subrange(0, m).push(links0[m]));
                lemma_filter_push(links0.subrange(0, m), link_not_onto(file_id), links0[m]);
                m = m + 1;
            }
            if l.file_id != file_id {
                self.links.push(l);
            }
        }
        proof {
            assert(links0.subrange(0, links0.len() as int) =~= links0);
            assert(self.links@ =~= links_without_file(links0, file_id));
            lemma_filter_char(files0, file_other_than(file_id));
            lemma_filter_char(links0, link_not_onto(file_id));
            lemma_filter_distinct_keys(files0, file_other_than(file_id), file_id_key());
            lemma_filter_distinct_keys(links0, link_not_onto(file_id), link_id_key());
            assert forall|a: int, b: int|
                #![trigger self.files@[a].id, self.files@[b].id]
                0 <= a < b < self.files@.len() implies self.files@[a].id != self.files@[b].id by {
                assert(file_id_key()(self.files@[a]) != file_id_key()(self.files@[b]));
            }
            assert forall|a: int, b: int|
                #![trigger self.links@[a].id, self.links@[b].id]
                0 <= a < b < self.links@.len() implies self.links@[a].id != self.links@[b].id by {
                assert(link_id_key()(self.links@[a]) != link_id_key()(self.links@[b]));
            }
            assert forall|i: int| 0 <= i < self.files@.len() implies (
            #[trigger] self.files@[i]).wf() by {
                assert(files0.contains(files_without(files0, file_id)[i]));
                let j = choose|j: int| 0 <= j < files0.len() && files0[j] == self.files@[i];
                assert(files0[j].wf());
            }
            assert forall|i: int|
                0 <= i < self.links@.len() implies has_file_id(
                self.files@,
                #[trigger] self.links@[i].file_id,
            ) by {
                let l = self.links@[i];
                assert(links0.contains(links_without_file(links0, file_id)[i]));
                assert(link_not_onto(file_id)(l));
                let j0 = choose|j0: int| 0 <= j0 < links0.len() && links0[j0] == l;
                assert(has_file_id(files0, l.file_id));
                let w = choose|w: int|
                    0 <= w < files0.len() && #[trigger] files0[w].id == l.file_id;
                assert(file_other_than(file_id)(files0[w]));
                assert(files_without(files0, file_id).contains(files0[w]));
                let v = choose|v: int|
                    0 <= v < files_without(files0, file_id).len() && files_without(
                        files0,
                        file_id,
                    )[v] == files0[w];
                assert(self.files@[v].id == l.file_id);
            }
        }
    }
}

/// The record appended by `store_file`: the given metadata, and a triple
/// that is a valid envelope of the plaintext under the cipher's master key.
pub open spec fn stored_file_matches(
    f: File,
    id: u128,
    owner_id: Option<u128>,
    filename: Seq<char>,
    filetype: Seq<char>,
    plaintext: Seq<u8>,
    master: Seq<u8>,
    created_at: EpochMs,
) -> bool {
    &&& f.id == id
    &&& f.user_id == owner_id
    &&& f.filename@ == filename
    &&& f.filetype@ == filetype
    &&& f.filesize == plaintext.len()
    &&& is_envelope_of(master, f.encrypted_file@, f.encrypted_aes_key@, f.iv@, plaintext)
    &&& f.created_at == Some(created_at)
}

} // verus!
