use vstd::prelude::*;
use crate::inventory::{
    has_local_key, has_remote_key, lookup_remote, unique_local_keys, unique_remote_keys,
    LocalInventory, RemoteInventory,
};
use crate::local::LocalFile;
use crate::remote::RemoteFile;

verus! {

/// The retention window: an orphaned remote object must be at least this many
/// seconds (four weeks) past its last-modified time before it is deleted.
pub const RETENTION_SECONDS: u64 = 2419200;

/// An upload is due unless the remote store already has the key with a known
/// content hash equal to the local one. An absent remote hash always forces
/// the upload; no other field takes part in the decision.
pub open spec fn needs_upload(l: LocalFile, rs: Seq<RemoteFile>) -> bool {
    match lookup_remote(rs, l.key@) {
        None => true,
        Some(r) => match r.e_tag {
            Some(t) => t != l.md5,
            None => true,
        },
    }
}

/// A remote object is deleted only when no local file bears its key, its
/// last-modified time is known, and more than the retention window has
/// elapsed since then. Unknown age is never treated as old.
pub open spec fn eligible_for_deletion(r: RemoteFile, ls: Seq<LocalFile>, now_unix: i64) -> bool {
    &&& !has_local_key(ls, r.key@)
    &&& match r.last_modified {
        Some(t) => now_unix - t > RETENTION_SECONDS,
        None => false,
    }
}

/// The upload half of the plan: the local entries that need uploading, in
/// inventory order.
pub open spec fn upload_seq(ls: Seq<LocalFile>, rs: Seq<RemoteFile>) -> Seq<LocalFile>
    decreases ls.len(),
{
    if ls.len() == 0 {
        Seq::empty()
    } else {
        let rest = upload_seq(ls.drop_last(), rs);
        if needs_upload(ls.last(), rs) {
            rest.push(ls.last())
        } else {
            rest
        }
    }
}

/// The deletion half of the plan: the remote entries eligible for deletion,
/// in inventory order.
pub open spec fn deletion_seq(rs: Seq<RemoteFile>, ls: Seq<LocalFile>, now_unix: i64) -> Seq<
    RemoteFile,
>
    decreases rs.len(),
{
    if rs.len() == 0 {
        Seq::empty()
    } else {
        let rest = deletion_seq(rs.drop_last(), ls, now_unix);
        if eligible_for_deletion(rs.last(), ls, now_unix) {
            rest.push(rs.last())
        } else {
            rest
        }
    }
}

/// The immutable plan: computed once from the two inventories and the current
/// time, then executed top to bottom with no re-planning.
pub struct DeploymentPlan {
    pub uploads: Vec<LocalFile>,
    pub deletions: Vec<RemoteFile>,
}

impl DeploymentPlan {
    /// Merges the two inventories into a plan. A pure function of the
    /// inventories, the current time and the retention constant: no I/O
    /// happens here, and no mutation has begun when it returns.
    pub fn build(local: &LocalInventory, remote: &RemoteInventory, now_unix: i64) -> (plan:
        DeploymentPlan)
        ensures
            plan.uploads@ == upload_seq(local@, remote@),
            plan.deletions@ == deletion_seq(remote@, local@, now_unix),
    {
        let mut uploads: Vec<LocalFile> = Vec::new();
        let ln = local.entries.len();
        let mut i: usize = 0;
        while i < ln
            invariant
                i <= ln,
                ln == local.entries@.len(),
                uploads@ == upload_seq(local.entries@.subrange(0, i as int), remote.entries@),
            decreases ln - i,
        {
            let lf = &local.entries[i];
            let due = match remote.get(lf.key.as_str()) {
                Some(rf) => match rf.e_tag {
                    Some(t) => t != lf.md5,
                    None => true,
                },
                None => true,
            };
            if due {
                uploads.push(lf.clone());
            }
            proof {
                let pre = local.entries@.subrange(0, i as int);
                let nxt = local.entries@.subrange(0, i as int + 1);
                assert(nxt.drop_last() =~= pre);
                assert(nxt.last() == local.entries@[i as int]);
                assert(due == needs_upload(local.entries@[i as int], remote.entries@));
                assert(uploads@ =~= upload_seq(nxt, remote.entries@));
            }
            i += 1;
        }
        proof {
            assert(local.entries@.subrange(0, ln as int) =~= local.entries@);
        }
        let mut deletions: Vec<RemoteFile> = Vec::new();
        let rn = remote.entries.len();
        let mut j: usize = 0;
        while j < rn
            invariant
                j <= rn,
                rn == remote.entries@.len(),
                deletions@ == deletion_seq(
                    remote.entries@.subrange(0, j as int),
                    local.entries@,
                    now_unix,
                ),
            decreases rn - j,
        {
            let rf = &remote.entries[j];
            let orphan = !local.contains_key(rf.key.as_str());
            let expired = match rf.last_modified {
                Some(t) => now_unix as i128 - t as i128 > RETENTION_SECONDS as i128,
                None => false,
            };
            if orphan && expired {
                deletions.push(rf.clone());
            }
            proof {
                let pre = remote.entries@.subrange(0, j as int);
                let nxt = remote.entries@.subrange(0, j as int + 1);
                assert(nxt.drop_last() =~= pre);
                assert(nxt.last() == remote.entries@[j as int]);
                assert((orphan && expired) == eligible_for_deletion(
                    remote.entries@[j as int],
                    local.entries@,
                    now_unix,
                ));
                assert(deletions@ =~= deletion_seq(nxt, local.entries@, now_unix));
            }
            j += 1;
        }
        proof {
            assert(remote.entries@.subrange(0, rn as int) =~= remote.entries@);
        }
        DeploymentPlan { uploads, deletions }
    }
}

proof fn lemma_upload_contains(ls: Seq<LocalFile>, rs: Seq<RemoteFile>, i: int)
    requires
        0 <= i < ls.len(),
        needs_upload(ls[i], rs),
    ensures
        upload_seq(ls, rs).contains(ls[i]),
    decreases ls.len(),
{
    let us = upload_seq(ls, rs);
    if i == ls.len() - 1 {
        assert(us[us.len() - 1] == ls[i]);
    } else {
        assert(ls.drop_last()[i] == ls[i]);
        lemma_upload_contains(ls.drop_last(), rs, i);
        let us2 = upload_seq(ls.drop_last(), rs);
        let w = choose|w: int| 0 <= w < us2.len() && us2[w] == ls[i];
        assert(us[w] == ls[i]);
    }
}

proof fn lemma_upload_no_key(ls: Seq<LocalFile>, rs: Seq<RemoteFile>, k: Seq<char>)
    requires
        forall|i: int| 0 <= i < ls.len() ==> (ls[i].key@ == k ==> !needs_upload(ls[i], rs)),
    ensures
        !has_local_key(upload_seq(ls, rs), k),
    decreases ls.len(),
{
    let us = upload_seq(ls, rs);
    if ls.len() > 0 {
        let dl = ls.drop_last();
        assert(forall|i: int| 0 <= i < dl.len() ==> dl[i] == ls[i]);
        lemma_upload_no_key(dl, rs, k);
        let us2 = upload_seq(dl, rs);
        if has_local_key(us, k) {
            let w = choose|w: int| 0 <= w < us.len() && us[w].key@ == k;
            if needs_upload(ls.last(), rs) {
                if w < us2.len() {
                    assert(us2[w].key@ == k);
                    assert(has_local_key(us2, k));
                } else {
                    assert(us[w] == ls.last());
                    assert(ls[ls.len() - 1].key@ == k);
                }
            } else {
                assert(us2[w].key@ == k);
                assert(has_local_key(us2, k));
            }
        }
    }
}

proof fn lemma_deletion_contains(rs: Seq<RemoteFile>, ls: Seq<LocalFile>, now_unix: i64, j: int)
    requires
        0 <= j < rs.len(),
        eligible_for_deletion(rs[j], ls, now_unix),
    ensures
        deletion_seq(rs, ls, now_unix).contains(rs[j]),
    decreases rs.len(),
{
    let ds = deletion_seq(rs, ls, now_unix);
    if j == rs.len() - 1 {
        assert(ds[ds.len() - 1] == rs[j]);
    } else {
        assert(rs.drop_last()[j] == rs[j]);
        lemma_deletion_contains(rs.drop_last(), ls, now_unix, j);
        let ds2 = deletion_seq(rs.drop_last(), ls, now_unix);
        let w = choose|w: int| 0 <= w < ds2.len() && ds2[w] == rs[j];
        assert(ds[w] == rs[j]);
    }
}

proof fn lemma_deletion_no_key(rs: Seq<RemoteFile>, ls: Seq<LocalFile>, now_unix: i64, k: Seq<char>)
    requires
        forall|j: int|
            0 <= j < rs.len() ==> (rs[j].key@ == k ==> !eligible_for_deletion(
                rs[j],
                ls,
                now_unix,
            )),
    ensures
        !has_remote_key(deletion_seq(rs, ls, now_unix), k),
    decreases rs.len(),
{
    let ds = deletion_seq(rs, ls, now_unix);
    if rs.len() > 0 {
        let dl = rs.drop_last();
        assert(forall|j: int| 0 <= j < dl.len() ==> dl[j] == rs[j]);
        lemma_deletion_no_key(dl, ls, now_unix, k);
        let ds2 = deletion_seq(dl, ls, now_unix);
        if has_remote_key(ds, k) {
            let w = choose|w: int| 0 <= w < ds.len() && ds[w].key@ == k;
            if eligible_for_deletion(rs.last(), ls, now_unix) {
                if w < ds2.len() {
                    assert(ds2[w].key@ == k);
                    assert(has_remote_key(ds2, k));
                } else {
                    assert(ds[w] == rs.last());
                    assert(rs[rs.len() - 1].key@ == k);
                }
            } else {
                assert(ds2[w].key@ == k);
                assert(has_remote_key(ds2, k));
            }
        }
    }
}

/// The planner is a function: two plans computed from the same two
/// inventories at the same time are the same plan.
pub proof fn lemma_planner_deterministic(
    p1: DeploymentPlan,
    p2: DeploymentPlan,
    ls: Seq<LocalFile>,
    rs: Seq<RemoteFile>,
    now_unix: i64,
)
    requires
        p1.uploads@ == upload_seq(ls, rs),
        p1.deletions@ == deletion_seq(rs, ls, now_unix),
        p2.uploads@ == upload_seq(ls, rs),
        p2.deletions@ == deletion_seq(rs, ls, now_unix),
    ensures
        p1.uploads@ == p2.uploads@,
        p1.deletions@ == p2.deletions@,
{
}

/// Re-planning against a remote state that reflects a completed run is a
/// no-op: when every local file is stored remotely with its own content hash,
/// and every remote object has a local counterpart, the fresh plan uploads
/// nothing and deletes nothing.
pub proof fn lemma_replan_after_execution(
    ls: Seq<LocalFile>,
    rs: Seq<RemoteFile>,
    now_unix: i64,
)
    requires
        forall|i: int|
            0 <= i < ls.len() ==> match lookup_remote(rs, (#[trigger] ls[i]).key@) {
                Some(r) => r.e_tag == Some(ls[i].md5),
                None => false,
            },
        forall|j: int| 0 <= j < rs.len() ==> has_local_key(ls, (#[trigger] rs[j]).key@),
    ensures
        upload_seq(ls, rs) == Seq::<LocalFile>::empty(),
        deletion_seq(rs, ls, now_unix) == Seq::<RemoteFile>::empty(),
{
    lemma_upload_seq_empty(ls, rs);
    lemma_deletion_seq_empty(rs, ls, now_unix);
}

proof fn lemma_upload_seq_empty(ls: Seq<LocalFile>, rs: Seq<RemoteFile>)
    requires
        forall|i: int| 0 <= i < ls.len() ==> !needs_upload(ls[i], rs),
    ensures
        upload_seq(ls, rs) == Seq::<LocalFile>::empty(),
    decreases ls.len(),
{
    if ls.len() > 0 {
        let dl = ls.drop_last();
        assert(forall|i: int| 0 <= i < dl.len() ==> dl[i] == ls[i]);
        lemma_upload_seq_empty(dl, rs);
        assert(!needs_upload(ls[ls.len() - 1], rs));
    }
}

proof fn lemma_deletion_seq_empty(rs: Seq<RemoteFile>, ls: Seq<LocalFile>, now_unix: i64)
    requires
        forall|j: int| 0 <= j < rs.len() ==> !eligible_for_deletion(rs[j], ls, now_unix),
    ensures
        deletion_seq(rs, ls, now_unix) == Seq::<RemoteFile>::empty(),
    decreases rs.len(),
{
    if rs.len() > 0 {
        let dl = rs.drop_last();
        assert(forall|j: int| 0 <= j < dl.len() ==> dl[j] == rs[j]);
        lemma_deletion_seq_empty(dl, ls, now_unix);
        assert(!eligible_for_deletion(rs[rs.len() - 1], ls, now_unix));
    }
}

/// A key present in both inventories with equal content hashes is never
/// touched: it appears in neither the uploads nor the deletions.
pub proof fn lemma_hash_equality_skip(
    ls: Seq<LocalFile>,
    rs: Seq<RemoteFile>,
    now_unix: i64,
    i: int,
)
    requires
        unique_local_keys(ls),
        0 <= i < ls.len(),
        match lookup_remote(rs, ls[i].key@) {
            Some(r) => r.e_tag == Some(ls[i].md5),
            None => false,
        },
    ensures
        !has_local_key(upload_seq(ls, rs), ls[i].key@),
        !has_remote_key(deletion_seq(rs, ls, now_unix), ls[i].key@),
{
    let k = ls[i].key@;
    assert forall|p: int| 0 <= p < ls.len() implies (ls[p].key@ == k ==> !needs_upload(
        ls[p],
        rs,
    )) by {
        if ls[p].key@ == k {
            if p < i {
                assert(ls[p].key@ != ls[i].key@);
            } else if p > i {
                assert(ls[i].key@ != ls[p].key@);
            }
            assert(p == i);
        }
    }
    lemma_upload_no_key(ls, rs, k);
    assert(has_local_key(ls, k));
    lemma_deletion_no_key(rs, ls, now_unix, k);
}

/// A remote entry with a matching key but no resolvable content hash always
/// forces the upload, whatever the sizes are: sizes take no part in the
/// decision at all.
pub proof fn lemma_missing_hash_forces_upload(
    ls: Seq<LocalFile>,
    rs: Seq<RemoteFile>,
    i: int,
)
    requires
        0 <= i < ls.len(),
        match lookup_remote(rs, ls[i].key@) {
            Some(r) => r.e_tag is None,
            None => false,
        },
    ensures
        upload_seq(ls, rs).contains(ls[i]),
{
    lemma_upload_contains(ls, rs, i);
}

/// The retention gate, for a remote-only key: it is deleted when its age is
/// known and exceeds the retention window; it is kept when its age is known
/// and within the window; and it is always kept when its age is unknown.
pub proof fn lemma_retention_gate(
    rs: Seq<RemoteFile>,
    ls: Seq<LocalFile>,
    now_unix: i64,
    j: int,
)
    requires
        unique_remote_keys(rs),
        0 <= j < rs.len(),
        !has_local_key(ls, rs[j].key@),
    ensures
        (match rs[j].last_modified {
            Some(t) => now_unix - t > RETENTION_SECONDS,
            None => false,
        }) ==> deletion_seq(rs, ls, now_unix).contains(rs[j]),
        (match rs[j].last_modified {
            Some(t) => now_unix - t <= RETENTION_SECONDS,
            None => false,
        }) ==> !has_remote_key(deletion_seq(rs, ls, now_unix), rs[j].key@),
        rs[j].last_modified is None ==> !has_remote_key(
            deletion_seq(rs, ls, now_unix),
            rs[j].key@,
        ),
{
    let k = rs[j].key@;
    if eligible_for_deletion(rs[j], ls, now_unix) {
        lemma_deletion_contains(rs, ls, now_unix, j);
    } else {
        assert forall|p: int| 0 <= p < rs.len() implies (rs[p].key@ == k
            ==> !eligible_for_deletion(rs[p], ls, now_unix)) by {
            if rs[p].key@ == k {
                if p < j {
                    assert(rs[p].key@ != rs[j].key@);
                } else if p > j {
                    assert(rs[j].key@ != rs[p].key@);
                }
                assert(p == j);
            }
        }
        lemma_deletion_no_key(rs, ls, now_unix, k);
    }
}

} // verus!

