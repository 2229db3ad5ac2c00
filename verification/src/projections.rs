use vstd::prelude::*;

verus! {

use crate::models::{File, ReceiveFileDetails, SendFileDetails, ShareLink, User};
use crate::store::{
    Store,
    file_with_id,
    has_file_id,
    has_user_id,
    user_with_id,
};

// ---------------------------------------------------------------------------
// The listing projections: read-only joins of File, ShareLink and User,
// recomputed from the store on every query and never persisted.
// ---------------------------------------------------------------------------

/// The link yields a "sent" row for `owner_id`: its file exists and is
/// owned by that user, and it is bound to an existing recipient account.
pub open spec fn sendable(users: Seq<User>, files: Seq<File>, l: ShareLink, owner_id: u128) -> bool {
    &&& has_file_id(files, l.file_id)
    &&& file_with_id(files, l.file_id).user_id == Some(owner_id)
    &&& l.recipient_user_id matches Some(rid) && has_user_id(users, rid)
}

/// The row a sendable link yields: the file's name, the recipient's email,
/// and the link's lifetime.
pub open spec fn send_row_of(users: Seq<User>, files: Seq<File>, l: ShareLink) -> SendFileDetails {
    SendFileDetails {
        file_id: l.file_id,
        filename: file_with_id(files, l.file_id).filename,
        recipient_email: user_with_id(users, l.recipient_user_id->0).email,
        expiration_date: Some(l.expires_at),
        created_at: l.created_at,
    }
}

/// All "sent" rows for `owner_id`, in link order.
pub open spec fn send_rows(
    users: Seq<User>,
    files: Seq<File>,
    links: Seq<ShareLink>,
    owner_id: u128,
) -> Seq<SendFileDetails>
    decreases links.len(),
{
    if links.len() == 0 {
        Seq::empty()
    } else {
        let rest = send_rows(users, files, links.drop_last(), owner_id);
        if sendable(users, files, links.last(), owner_id) {
            rest.push(send_row_of(users, files, links.last()))
        } else {
            rest
        }
    }
}

/// The link yields a "received" row for `recipient_id`: it is bound to that
/// account, and its file exists and still has an existing owner to name as
/// sender.
pub open spec fn receivable(
    users: Seq<User>,
    files: Seq<File>,
    l: ShareLink,
    recipient_id: u128,
) -> bool {
    &&& l.recipient_user_id == Some(recipient_id)
    &&& has_file_id(files, l.file_id)
    &&& file_with_id(files, l.file_id).user_id matches Some(oid) && has_user_id(users, oid)
}

/// The row a receivable link yields: the file's name, the sender's email,
/// and the link's lifetime.
pub open spec fn receive_row_of(users: Seq<User>, files: Seq<File>, l: ShareLink) -> ReceiveFileDetails {
    ReceiveFileDetails {
        file_id: l.file_id,
        filename: file_with_id(files, l.file_id).filename,
        sender_email: user_with_id(users, file_with_id(files, l.file_id).user_id->0).email,
        expiration_date: Some(l.expires_at),
        created_at: l.created_at,
    }
}

/// All "received" rows for `recipient_id`, in link order.
pub open spec fn receive_rows(
    users: Seq<User>,
    files: Seq<File>,
    links: Seq<ShareLink>,
    recipient_id: u128,
) -> Seq<ReceiveFileDetails>
    decreases links.len(),
{
    if links.len() == 0 {
        Seq::empty()
    } else {
        let rest = receive_rows(users, files, links.drop_last(), recipient_id);
        if receivable(users, files, links.last(), recipient_id) {
            rest.push(receive_row_of(users, files, links.last()))
        } else {
            rest
        }
    }
}

/// One page of a listing: rows `(page - 1) * limit` up to `limit` of them.
pub open spec fn page_slice<T>(s: Seq<T>, page: u32, limit: u32) -> Seq<T> {
    let start = (page - 1) as int * limit as int;
    if start >= s.len() {
        Seq::empty()
    } else if start + limit as int >= s.len() {
        s.subrange(start, s.len() as int)
    } else {
        s.subrange(start, start + limit as int)
    }
}

impl Store {
    /// Look a user up by id.
    #[verifier::loop_isolation(false)]
    pub fn find_user(&self, user_id: u128) -> (r: Option<&User>)
        requires
            self.wf(),
        ensures
            r matches Some(u) ==> has_user_id(self.users@, user_id) && *u == user_with_id(
                self.users@,
                user_id,
            ) && u.id == user_id,
            r is None ==> !has_user_id(self.users@, user_id),
    {
        let mut i: usize = 0;
        while i < self.users.len()
            invariant
                i <= self.users@.len(),
                forall|j: int| 0 <= j < i ==> #[trigger] self.users@[j].id != user_id,
            decreases self.users@.len() - i,
        {
            if self.users[i].id == user_id {
                proof {
                    let w = choose|w: int|
                        0 <= w < self.users@.len() && #[trigger] self.users@[w].id == user_id;
                    assert(w == i);
                }
                return Some(&self.users[i]);
            }
            i += 1;
        }
        None
    }

    /// The requested page of the "files I sent" listing for `owner_id`.
    #[verifier::loop_isolation(false)]
    pub fn list_sent(&self, owner_id: u128, page: u32, limit: u32) -> (r: Vec<SendFileDetails>)
        requires
            self.wf(),
            page >= 1,
            1 <= limit <= 50,
        ensures
            r@ == page_slice(
                send_rows(self.users@, self.files@, self.links@, owner_id),
                page,
                limit,
            ),
    {
        let mut rows: Vec<SendFileDetails> = Vec::new();
        let mut i: usize = 0;
        while i < self.links.len()
            invariant
                i <= self.links@.len(),
                rows@ =~= send_rows(
                    self.users@,
                    self.files@,
                    self.links@.subrange(0, i as int),
                    owner_id,
                ),
            decreases self.links@.len() - i,
        {
            proof {
                assert(self.links@.subrange(0, i + 1).drop_last() =~= self.links@.subrange(
                    0,
                    i as int,
                ));
                assert(self.links@.subrange(0, i + 1).last() == self.links@[i as int]);
            }
            let l = &self.links[i];
            match self.load(l.file_id) {
                Some(f) => {
                    let owned = match f.user_id {
                        Some(u) => u == owner_id,
                        None => false,
                    };
                    if owned {
                        match l.recipient_user_id {
                            Some(rid) => {
                                match self.find_user(rid) {
                                    Some(u) => {
                                        rows.push(
                                            SendFileDetails {
                                                file_id: l.file_id,
                                                filename: f.filename.clone(),
                                                recipient_email: u.email.clone(),
                                                expiration_date: Some(l.expires_at),
                                                created_at: l.created_at,
                                            },
                                        );
                                    },
                                    None => {},
                                }
                            },
                            None => {},
                        }
                    }
                },
                None => {},
            }
            i += 1;
        }
        proof {
            assert(self.links@.subrange(0, self.links@.len() as int) =~= self.links@);
        }
        paginate_send(rows, page, limit)
    }

    /// The requested page of the "files I received" listing for
    /// `recipient_id`.
    #[verifier::loop_isolation(false)]
    pub fn list_received(&self, recipient_id: u128, page: u32, limit: u32) -> (r: Vec<
        ReceiveFileDetails,
    >)
        requires
            self.wf(),
            page >= 1,
            1 <= limit <= 50,
        ensures
            r@ == page_slice(
                receive_rows(self.users@, self.files@, self.links@, recipient_id),
                page,
                limit,
            ),
    {
        let mut rows: Vec<ReceiveFileDetails> = Vec::new();
        let mut i: usize = 0;
        while i < self.links.len()
            invariant
                i <= self.links@.len(),
                rows@ =~= receive_rows(
                    self.users@,
                    self.files@,
                    self.links@.subrange(0, i as int),
                    recipient_id,
                ),
            decreases self.links@.len() - i,
        {
            proof {
                assert(self.links@.subrange(0, i + 1).drop_last() =~= self.links@.subrange(
                    0,
                    i as int,
                ));
                assert(self.links@.subrange(0, i + 1).last() == self.links@[i as int]);
            }
            let l = &self.links[i];
            let bound = match l.recipient_user_id {
                Some(rid) => rid == recipient_id,
                None => false,
            };
            if bound {
                match self.load(l.file_id) {
                    Some(f) => {
                        match f.user_id {
                            Some(oid) => {
                                match self.find_user(oid) {
                                    Some(u) => {
                                        rows.push(
                                            ReceiveFileDetails {
                                                file_id: l.file_id,
                                                filename: f.filename.clone(),
                                                sender_email: u.email.clone(),
                                                expiration_date: Some(l.expires_at),
                                                created_at: l.created_at,
                                            },
                                        );
                                    },
                                    None => {},
                                }
                            },
                            None => {},
                        }
                    },
                    None => {},
                }
            }
            i += 1;
        }
        proof {
            assert(self.links@.subrange(0, self.links@.len() as int) =~= self.links@);
        }
        paginate_receive(rows, page, limit)
    }
}

/// Cut one page out of the full "sent" listing.
fn paginate_send(rows: Vec<SendFileDetails>, page: u32, limit: u32) -> (r: Vec<SendFileDetails>)
    requires
        page >= 1,
        1 <= limit <= 50,
    ensures
        r@ == page_slice(rows@, page, limit),
{
    let pm1: u64 = (page - 1) as u64;
    let lim: u64 = limit as u64;
    proof {
        assert(pm1 * lim <= 0xFFFF_FFFFu64 * 50) by (nonlinear_arith)
            requires
                0 <= pm1 <= 0xFFFF_FFFFu64,
                0 <= lim <= 50,
        ;
    }
    let start64: u64 = pm1 * lim;
    if start64 >= rows.len() as u64 {
        return Vec::new();
    }
    let start: usize = start64 as usize;
    let mut rows = rows;
    let mut tail = rows.split_off(start);
    tail.truncate(limit as usize);
    tail
}

/// Cut one page out of the full "received" listing.
fn paginate_receive(rows: Vec<ReceiveFileDetails>, page: u32, limit: u32) -> (r: Vec<
    ReceiveFileDetails,
>)
    requires
        page >= 1,
        1 <= limit <= 50,
    ensures
        r@ == page_slice(rows@, page, limit),
{
    let pm1: u64 = (page - 1) as u64;
    let lim: u64 = limit as u64;
    proof {
        assert(pm1 * lim <= 0xFFFF_FFFFu64 * 50) by (nonlinear_arith)
            requires
                0 <= pm1 <= 0xFFFF_FFFFu64,
                0 <= lim <= 50,
        ;
    }
    let start64: u64 = pm1 * lim;
    if start64 >= rows.len() as u64 {
        return Vec::new();
    }
    let start: usize = start64 as usize;
    let mut rows = rows;
    let mut tail = rows.split_off(start);
    tail.truncate(limit as usize);
    tail
}

} // verus!
