use vstd::prelude::*;

verus! {

use crate::EpochMs;
use crate::spec_is_expired;
use crate::is_expired;
use crate::models::{File, ShareLink};
use crate::seq_util::{lemma_filter_all, lemma_filter_char, lemma_filter_distinct_keys, lemma_filter_push};
use crate::store::{
    Store,
    file_id_key,
    has_file_id,
    has_link_id,
    link_id_key,
    link_ids_unique,
    link_with_id,
};

/// The reaper and the authorization path share one expiration predicate;
/// this is its lift to link records.
pub open spec fn link_not_expired(now: EpochMs) -> spec_fn(ShareLink) -> bool {
    |l: ShareLink| !spec_is_expired(l.expires_at, now)
}

/// The link table after a sweep at `now`: exactly the links not yet
/// expired, order kept.
pub open spec fn live_links(links: Seq<ShareLink>, now: EpochMs) -> Seq<ShareLink> {
    links.filter(link_not_expired(now))
}

/// A file the sweep retires: nobody owns it, at least one link referenced
/// it, and every link that references it is expired.  A file still owned,
/// or still reachable through a live link, or never shared at all, stays.
pub open spec fn file_condemned(f: File, links: Seq<ShareLink>, now: EpochMs) -> bool {
    &&& f.user_id is None
    &&& exists|j: int|
        0 <= j < links.len() && #[trigger] links[j].file_id == f.id && spec_is_expired(
            links[j].expires_at,
            now,
        )
    &&& forall|j: int|
        0 <= j < links.len() && #[trigger] links[j].file_id == f.id ==> spec_is_expired(
            links[j].expires_at,
            now,
        )
}

pub open spec fn file_kept(links: Seq<ShareLink>, now: EpochMs) -> spec_fn(File) -> bool {
    |f: File| !file_condemned(f, links, now)
}

/// The file table after a sweep at `now`, judged against the link table as
/// it stood when the sweep began.
pub open spec fn surviving_files(files: Seq<File>, links: Seq<ShareLink>, now: EpochMs) -> Seq<
    File,
> {
    files.filter(file_kept(links, now))
}

/// Whether the sweep would retire this file, decided against the current
/// link table.
#[verifier::loop_isolation(false)]
fn file_condemned_exec(links: &Vec<ShareLink>, f: &File, now: EpochMs) -> (r: bool)
    ensures
        r == file_condemned(*f, links@, now),
{
    let retained = match f.user_id {
        Some(_) => true,
        None => false,
    };
    if retained {
        return false;
    }
    let mut saw_expired = false;
    let mut saw_live = false;
    let mut i: usize = 0;
    while i < links.len()
        invariant
            i <= links@.len(),
            saw_expired == exists|j: int|
                0 <= j < i && #[trigger] links@[j].file_id == f.id && spec_is_expired(
                    links@[j].expires_at,
                    now,
                ),
            saw_live == exists|j: int|
                0 <= j < i && #[trigger] links@[j].file_id == f.id && !spec_is_expired(
                    links@[j].expires_at,
                    now,
                ),
        decreases links@.len() - i,
    {
        if links[i].file_id == f.id {
            if is_expired(links[i].expires_at, now) {
                saw_expired = true;
            } else {
                saw_live = true;
            }
        }
        i += 1;
    }
    saw_expired && !saw_live
}

impl Store {
    /// One pass of the expiration reaper: delete every link at or past its
    /// expiration, then retire the files those deletions orphaned.  The
    /// predicate is the same one the authorization path applies, evaluated
    /// against the single `now` of this sweep, so the sweep can never
    /// remove a record that an authorization at that instant would still
    /// allow.  Returns how many links and files were reaped.
    #[verifier::loop_isolation(false)]
    pub fn sweep(&mut self, now: EpochMs) -> (r: (usize, usize))
        requires
            old(self).wf(),
        ensures
            final(self).wf(),
            final(self).users@ == old(self).users@,
            final(self).links@ == live_links(old(self).links@, now),
            final(self).files@ == surviving_files(old(self).files@, old(self).links@, now),
            r.0 + final(self).links@.len() == old(self).links@.len(),
            r.1 + final(self).files@.len() == old(self).files@.len(),
    {
        let ghost files0 = self.files@;
        let ghost links0 = self.links@;
        let files_before: usize = self.files.len();
        let links_before: usize = self.links.len();
        let mut pending_files: Vec<File> = Vec::new();
        core::mem::swap(&mut self.files, &mut pending_files);
        let ghost mut k: int = 0;
        while pending_files.len() > 0
            invariant
                0 <= k <= files0.len(),
                pending_files@ =~= files0.subrange(k, files0.len() as int),
                self.files@ =~= surviving_files(files0.subrange(0, k), links0, now),
                self.users@ == old(self).users@,
                self.links@ == links0,
            decreases pending_files@.len(),
        {
            let f = pending_files.remove(0);
            proof {
                assert(f == files0[k]);
                assert(files0.subrange(0, k + 1) =~= files0.subrange(0, k).push(files0[k]));
                lemma_filter_push(files0.subrange(0, k), file_kept(links0, now), files0[k]);
                k = k + 1;
            }
            let condemned = file_condemned_exec(&self.links, &f, now);
            if !condemned {
                self.files.push(f);
            }
        }
        proof {
            assert(files0.subrange(0, files0.len() as int) =~= files0);
            assert(self.files@ =~= surviving_files(files0, links0, now));
            files0.lemma_filter_len(file_kept(links0, now));
        }
        let reaped_files = files_before - self.files.len();
        let mut pending_links: Vec<ShareLink> = Vec::new();
        core::mem::swap(&mut self.links, &mut pending_links);
        let ghost mut m: int = 0;
        while pending_links.len() > 0
            invariant
                0 <= m <= links0.len(),
                pending_links@ =~= links0.subrange(m, links0.len() as int),
                self.links@ =~= live_links(links0.subrange(0, m), now),
                self.users@ == old(self).users@,
                self.files@ == surviving_files(files0, links0, now),
            decreases pending_links@.len(),
        {
            let l = pending_links.remove(0);
            proof {
                assert(l == links0[m]);
                assert(links0.subrange(0, m + 1) =~= links0.subrange(0, m).push(links0[m]));
                lemma_filter_push(links0.subrange(0, m), link_not_expired(now), links0[m]);
                m = m + 1;
            }
            if !is_expired(l.expires_at, now) {
                self.links.push(l);
            }
        }
        proof {
            assert(links0.subrange(0, links0.len() as int) =~= links0);
            assert(self.links@ =~= live_links(links0, now));
            links0.lemma_filter_len(link_not_expired(now));
            lemma_filter_char(files0, file_kept(links0, now));
            lemma_filter_char(links0, link_not_expired(now));
            lemma_filter_distinct_keys(files0, file_kept(links0, now), file_id_key());
            lemma_filter_distinct_keys(links0, link_not_expired(now), link_id_key());
            assert forall|a: int, b: int|
                #![trigger self.files@[a].id, self.files@[b].id]
                0 <= a < b < self.files@.len() implies self.files@[a].id != self.files@[b].id by {
                assert(file_id_key()(self.files@[a]) != file_id_key()(self.files@[b]));
            }
            assert forall|a: int, b: int|
                #![trigger self.links@[a].id, self.links@[b].id]
                0 <= a < b < self.links@.len() implies self.links@[a].id != self.links@[b].id by {
                assert(link_id_key()(self.links@[a]) != link_id_key()(self.links@[b]));
            }
            assert forall|i: int|
                0 <= i < self.files@.len() implies (#[trigger] self.files@[i]).wf() by {
                assert(files0.contains(self.files@[i]));
                let j = choose|j: int| 0 <= j < files0.len() && files0[j] == self.files@[i];
                assert(files0[j].wf());
            }
            assert forall|i: int|
                0 <= i < self.links@.len() implies has_file_id(
                self.files@,
                #[trigger] self.links@[i].file_id,
            ) by {
                let l = self.links@[i];
                assert(links0.contains(l));
                assert(link_not_expired(now)(l));
                let j0 = choose|j0: int| 0 <= j0 < links0.len() && links0[j0] == l;
                assert(has_file_id(files0, links0[j0].file_id));
                let w = choose|w: int|
                    0 <= w < files0.len() && #[trigger] files0[w].id == l.file_id;
                assert(!file_condemned(files0[w], links0, now));
                assert(file_kept(links0, now)(files0[w]));
                assert(surviving_files(files0, links0, now).contains(files0[w]));
                let v = choose|v: int|
                    0 <= v < surviving_files(files0, links0, now).len() && surviving_files(
                        files0,
                        links0,
                        now,
                    )[v] == files0[w];
                assert(self.files@[v].id == l.file_id);
            }
        }
        let reaped_links = links_before - self.links.len();
        (reaped_links, reaped_files)
    }
}

/// Once the current time has passed an expiration, it stays passed: a link
/// found invalid at one instant is invalid at every later one, and a link
/// valid now was valid at every earlier instant.  This is what makes
/// validity monotone in time, independent of when the reaper runs.
pub proof fn lemma_expiration_monotone(expires_at: EpochMs, t1: EpochMs, t2: EpochMs)
    requires
        t1 <= t2,
    ensures
        spec_is_expired(expires_at, t1) ==> spec_is_expired(expires_at, t2),
        !spec_is_expired(expires_at, t2) ==> !spec_is_expired(expires_at, t1),
{
}

/// Sweeping is idempotent: a second sweep at the same instant, with no new
/// expirations in between, removes nothing more — neither links nor files.
pub proof fn lemma_sweep_idempotent(files: Seq<File>, links: Seq<ShareLink>, now: EpochMs)
    ensures
        live_links(live_links(links, now), now) == live_links(links, now),
        surviving_files(surviving_files(files, links, now), live_links(links, now), now)
            == surviving_files(files, links, now),
{
    let l1 = live_links(links, now);
    let f1 = surviving_files(files, links, now);
    lemma_filter_char(links, link_not_expired(now));
    assert forall|i: int| 0 <= i < l1.len() implies link_not_expired(now)(#[trigger] l1[i]) by {
    }
    lemma_filter_all(l1, link_not_expired(now));
    lemma_filter_char(files, file_kept(links, now));
    assert forall|i: int| 0 <= i < f1.len() implies file_kept(l1, now)(#[trigger] f1[i]) by {
        if file_condemned(f1[i], l1, now) {
            let j = choose|j: int|
                0 <= j < l1.len() && #[trigger] l1[j].file_id == f1[i].id && spec_is_expired(
                    l1[j].expires_at,
                    now,
                );
            assert(link_not_expired(now)(l1[j]));
            assert(false);
        }
    }
    lemma_filter_all(f1, file_kept(l1, now));
}

/// No retrieval after a purge: once a sweep has removed an expired link,
/// a lookup of its id finds nothing — the same outcome as for an id that
/// never existed.
pub proof fn lemma_no_post_purge(links: Seq<ShareLink>, now: EpochMs, id: u128)
    requires
        link_ids_unique(links),
        has_link_id(links, id),
        spec_is_expired(link_with_id(links, id).expires_at, now),
    ensures
        !has_link_id(live_links(links, now), id),
{
    lemma_filter_char(links, link_not_expired(now));
    let l1 = live_links(links, now);
    if has_link_id(l1, id) {
        let i = choose|i: int| 0 <= i < l1.len() && #[trigger] l1[i].id == id;
        assert(links.contains(l1[i]));
        assert(link_not_expired(now)(l1[i]));
        let j = choose|j: int| 0 <= j < links.len() && links[j] == l1[i];
        let w = choose|w: int| 0 <= w < links.len() && #[trigger] links[w].id == id;
        assert(links[j].id == links[w].id);
        assert(j == w);
        assert(false);
    }
}

/// A sweep never touches a link that is still valid at the sweep's own
/// instant: the link survives unchanged and is found under the same id
/// afterwards.  Together with `lemma_expiration_monotone`, this is why the
/// outcome of an authorization depends only on the current time, never on
/// whether or when the reaper has run.
pub proof fn lemma_sweep_preserves_live(links: Seq<ShareLink>, now: EpochMs, id: u128)
    requires
        link_ids_unique(links),
        crate::links::link_live(links, id, now),
    ensures
        crate::links::link_live(live_links(links, now), id, now),
        link_with_id(live_links(links, now), id) == link_with_id(links, id),
{
    lemma_filter_char(links, link_not_expired(now));
    let l1 = live_links(links, now);
    let l = link_with_id(links, id);
    let w = choose|w: int| 0 <= w < links.len() && #[trigger] links[w].id == id;
    assert(links[w] == l);
    assert(link_not_expired(now)(links[w]));
    assert(l1.contains(links[w]));
    let v = choose|v: int| 0 <= v < l1.len() && l1[v] == links[w];
    assert(l1[v].id == id);
    assert(has_link_id(l1, id));
    let u = choose|u: int| 0 <= u < l1.len() && #[trigger] l1[u].id == id;
    assert(links.contains(l1[u]));
    let j = choose|j: int| 0 <= j < links.len() && links[j] == l1[u];
    assert(links[j].id == links[w].id);
    assert(j == w);
    assert(link_with_id(l1, id) == l1[u]);
    assert(!spec_is_expired(link_with_id(l1, id).expires_at, now));
}

} // verus!
