//! The single currently-unlocked repository, its in-memory credential, and
//! the cached snapshot list.  The cache is `None` while a fetch is outstanding
//! or never requested, and an empty list once the engine confirmed that the
//! repository holds no snapshots.

use vstd::prelude::*;
use crate::types::{RepoView, Repository, SnapView, Snapshot};

verus! {

/// Mathematical value of a [`Session`].
#[verifier::ext_equal]
pub struct SessionView {
    pub repository: Option<RepoView>,
    pub password: Seq<char>,
    pub snapshots: Option<Seq<SnapView>>,
}

/// Why a session operation was refused.
#[derive(Clone, Copy, Debug, PartialEq, Eq, Structural)]
pub enum SessionError {
    /// No repository is unlocked.
    NoActiveRepository,
}

/// A delete request aimed at the active repository, ready to be handed to the
/// engine as one call.
pub struct DeleteRequest {
    pub path: String,
    pub password: String,
    pub ids: Vec<String>,
}

/// The closed session: no repository, no credential, no cache.
pub open spec fn spec_closed_session() -> SessionView {
    SessionView { repository: Option::None, password: Seq::empty(), snapshots: Option::None }
}

/// Opening replaces any existing session and resets the snapshot cache to
/// unknown; the caller issues the asynchronous fetch.
pub open spec fn spec_open(s: SessionView, repo: RepoView, password: Seq<char>) -> SessionView {
    SessionView { repository: Option::Some(repo), password, snapshots: Option::None }
}

/// A fetch result is applied only when it is for the currently active
/// repository; a mismatched result is a stale fetch and is dropped unapplied.
pub open spec fn spec_set_snapshots(
    s: SessionView,
    path: Seq<char>,
    list: Seq<SnapView>,
) -> SessionView {
    match s.repository {
        Option::Some(r) => if r.path == path {
            SessionView { snapshots: Option::Some(list), ..s }
        } else {
            s
        },
        Option::None => s,
    }
}

/// Some cached snapshot carries the given id.
pub open spec fn spec_has_id(snaps: Seq<SnapView>, id: Seq<char>) -> bool {
    exists|i: int| 0 <= i < snaps.len() && snaps[i].id == id
}

/// Every id comes from the current cache: the cache is loaded and contains
/// each of them.  Ids from a previously selected repository can never pass
/// this, because switching repositories resets the cache to unknown.
pub open spec fn spec_ids_cached(s: SessionView, ids: Seq<Seq<char>>) -> bool {
    match s.snapshots {
        Option::Some(list) => forall|k: int| 0 <= k < ids.len() ==> spec_has_id(list, ids[k]),
        Option::None => false,
    }
}

/// The in-memory unlocked context; at most one exists process-wide.  The
/// password lives only here and only while the session is active: it is never
/// part of the persisted configuration.
pub struct Session {
    pub repository: Option<Repository>,
    pub password: String,
    pub snapshots: Option<Vec<Snapshot>>,
}

impl View for Session {
    type V = SessionView;

    open spec fn view(&self) -> SessionView {
        SessionView {
            repository: self.repository.deep_view(),
            password: self.password@,
            snapshots: self.snapshots.deep_view(),
        }
    }
}

impl Session {
    pub fn new() -> (r: Session)
        ensures
            r@ == spec_closed_session(),
    {
        let r = Session {
            repository: Option::None,
            password: String::new(),
            snapshots: Option::None,
        };
        proof {
            assert(r@ =~= spec_closed_session());
        }
        r
    }

    /// Replaces any existing session and clears the cached snapshots to
    /// unknown.  The caller triggers the asynchronous snapshot fetch.
    pub fn open(&mut self, repository: Repository, password: String)
        ensures
            final(self)@ == spec_open(old(self)@, repository@, password@),
    {
        self.repository = Option::Some(repository);
        self.password = password;
        self.snapshots = Option::None;
        proof {
            assert(final(self)@ =~= spec_open(old(self)@, repository@, password@));
        }
    }

    /// Applies a fetched snapshot list when it is for the active repository;
    /// a result for any other repository is stale and is dropped.  The result
    /// says whether the list was applied.
    pub fn set_snapshots(&mut self, path: &String, snapshots: Vec<Snapshot>) -> (applied: bool)
        ensures
            final(self)@ == spec_set_snapshots(old(self)@, path@, snapshots.deep_view()),
            applied == match old(self)@.repository {
                Option::Some(r) => r.path == path@,
                Option::None => false,
            },
    {
        let matches = match &self.repository {
            Option::Some(r) => r.path == *path,
            Option::None => false,
        };
        if matches {
            self.snapshots = Option::Some(snapshots);
            proof {
                assert(final(self)@ =~= spec_set_snapshots(
                    old(self)@,
                    path@,
                    snapshots.deep_view(),
                ));
            }
            true
        } else {
            false
        }
    }

    /// Constructs a delete request for the given snapshot ids against the
    /// active repository and its credential; fails with `NoActiveRepository`
    /// when nothing is unlocked.
    pub fn request_delete(&self, ids: Vec<String>) -> (r: Result<DeleteRequest, SessionError>)
        ensures
            match r {
                Result::Ok(req) => self@.repository matches Option::Some(repo) && req.path@
                    == repo.path && req.password@ == self@.password && req.ids.deep_view()
                    == ids.deep_view(),
                Result::Err(e) => e == SessionError::NoActiveRepository && self@.repository
                    is None,
            },
    {
        match &self.repository {
            Option::Some(repo) => Result::Ok(
                DeleteRequest {
                    path: repo.path.clone(),
                    password: self.password.clone(),
                    ids,
                },
            ),
            Option::None => Result::Err(SessionError::NoActiveRepository),
        }
    }

    /// Every given id is present in the current snapshot cache.
    pub fn ids_cached(&self, ids: &Vec<String>) -> (r: bool)
        ensures
            r == spec_ids_cached(self@, ids.deep_view()),
    {
        match &self.snapshots {
            Option::Some(list) => {
                let mut k: usize = 0;
                while k < ids.len()
                    invariant
                        k <= ids.len(),
                        self@.snapshots matches Option::Some(l) && l == list.deep_view(),
                        forall|m: int|
                            0 <= m < k ==> spec_has_id(list.deep_view(), ids.deep_view()[m]),
                    decreases ids.len() - k,
                {
                    if !has_snapshot(list, &ids[k]) {
                        proof {
                            assert(ids.deep_view()[k as int] == ids@[k as int]@);
                            assert(!spec_has_id(list.deep_view(), ids.deep_view()[k as int]));
                        }
                        return false;
                    }
                    proof {
                        assert(ids.deep_view()[k as int] == ids@[k as int]@);
                    }
                    k = k + 1;
                }
                true
            },
            Option::None => false,
        }
    }

    /// Clears repository, credential, and snapshot cache; used when the
    /// active repository is deleted.
    pub fn close(&mut self)
        ensures
            final(self)@ == spec_closed_session(),
    {
        self.repository = Option::None;
        self.password = String::new();
        self.snapshots = Option::None;
        proof {
            assert(final(self)@ =~= spec_closed_session());
        }
    }
}

/// Some snapshot in the list carries the given id.
fn has_snapshot(list: &Vec<Snapshot>, id: &String) -> (r: bool)
    ensures
        r == spec_has_id(list.deep_view(), id@),
{
    let mut i: usize = 0;
    while i < list.len()
        invariant
            i <= list.len(),
            forall|k: int| 0 <= k < i ==> list.deep_view()[k].id != id@,
    decreases list.len() - i,
    {
        if list[i].id == *id {
            proof {
                assert(list.deep_view()[i as int].id == id@);
            }
            return true;
        }
        i = i + 1;
    }
    false
}

/// Stale fetch results are discarded: opening a session on repository `a`,
/// then switching to repository `b` before `a`'s fetch resolves, and only then
/// receiving `a`'s result leaves the session exactly as `b`'s open left it —
/// in particular `b`'s snapshot cache is still unknown, never `a`'s list.
pub proof fn lemma_stale_fetch_discarded(
    s: SessionView,
    a: RepoView,
    pa: Seq<char>,
    b: RepoView,
    pb: Seq<char>,
    result: Seq<SnapView>,
)
    requires
        a.path != b.path,
    ensures
        spec_set_snapshots(spec_open(spec_open(s, a, pa), b, pb), a.path, result) == spec_open(
            spec_open(s, a, pa),
            b,
            pb,
        ),
        spec_open(spec_open(s, a, pa), b, pb).snapshots is None,
{
}

} // verus!
