//! The ordered list of known repositories with their per-entry status: the
//! user-visible navigation model.  Paths are unique; one entry may be marked
//! active for navigation.  Every structural change (add / remove) is followed
//! by a push of the full repository list to the durable store, which the
//! dispatcher emits as a persistence effect.

use vstd::prelude::*;
use crate::types::{RepoView, Repository, RepositoryStatus, StatusView};

verus! {

/// One registry row: a repository and its lifecycle status.
pub struct Entry {
    pub repository: Repository,
    pub status: RepositoryStatus,
}

/// Mathematical value of an [`Entry`].
#[verifier::ext_equal]
pub struct EntryView {
    pub repository: RepoView,
    pub status: StatusView,
}

impl View for Entry {
    type V = EntryView;

    open spec fn view(&self) -> EntryView {
        EntryView { repository: self.repository@, status: self.status@ }
    }
}

impl DeepView for Entry {
    type V = EntryView;

    open spec fn deep_view(&self) -> EntryView {
        self@
    }
}

impl Clone for Entry {
    fn clone(&self) -> (r: Self)
        ensures
            r == *self,
    {
        Entry { repository: self.repository.clone(), status: self.status.clone() }
    }
}

/// Why a registry operation was refused.
#[derive(Clone, Copy, Debug, PartialEq, Eq, Structural)]
pub enum RegistryError {
    /// `add` found the path already present.
    DuplicatePath,
    /// The named path is not in the registry.
    NotFound,
}

/// Some entry has the given path.
pub open spec fn has_path(entries: Seq<EntryView>, path: Seq<char>) -> bool {
    exists|i: int| 0 <= i < entries.len() && entries[i].repository.path == path
}

/// No two entries share a path: the registry's well-formedness invariant.
pub open spec fn paths_distinct(entries: Seq<EntryView>) -> bool {
    forall|i: int, j: int|
        0 <= i < j < entries.len() ==> entries[i].repository.path != entries[
            j
        ].repository.path
}

/// The repositories of the entries, in registry order: the list that is
/// persisted to the durable store.
pub open spec fn repos_of(entries: Seq<EntryView>) -> Seq<RepoView> {
    entries.map_values(|e: EntryView| e.repository)
}

/// Mathematical value of a [`Registry`].
#[verifier::ext_equal]
pub struct RegistryView {
    pub entries: Seq<EntryView>,
    pub active: Option<Seq<char>>,
}

/// Appending an entry; refused (no change) when the path is already present.
pub open spec fn spec_add(r: RegistryView, repo: RepoView, status: StatusView) -> RegistryView {
    if has_path(r.entries, repo.path) {
        r
    } else {
        RegistryView { entries: r.entries.push(EntryView { repository: repo, status }), ..r }
    }
}

/// Updating the status of the entry with the given path; no change when the
/// path is absent.
pub open spec fn spec_set_status(
    r: RegistryView,
    path: Seq<char>,
    status: StatusView,
) -> RegistryView {
    RegistryView {
        entries: Seq::new(
            r.entries.len(),
            |i: int|
                if r.entries[i].repository.path == path {
                    EntryView { repository: r.entries[i].repository, status }
                } else {
                    r.entries[i]
                },
        ),
        ..r
    }
}

/// Removing the entry with the given path; no change when it is absent.  When
/// the removed entry was the active one, nothing is active afterwards.
pub open spec fn spec_remove(r: RegistryView, path: Seq<char>) -> RegistryView {
    if !has_path(r.entries, path) {
        r
    } else {
        let i = choose|i: int| 0 <= i < r.entries.len() && r.entries[i].repository.path == path;
        RegistryView {
            entries: r.entries.remove(i),
            active: if r.active == Option::Some(path) {
                Option::None
            } else {
                r.active
            },
        }
    }
}

/// The repository of the entry with the given path; meaningful only when
/// `has_path` holds and paths are distinct.
pub open spec fn repo_at(entries: Seq<EntryView>, path: Seq<char>) -> RepoView {
    entries[choose|i: int|
        0 <= i < entries.len() && entries[i].repository.path == path].repository
}

/// Marking the entry with the given path active; no change when it is absent.
pub open spec fn spec_select(r: RegistryView, path: Seq<char>) -> RegistryView {
    if has_path(r.entries, path) {
        RegistryView { active: Option::Some(path), ..r }
    } else {
        r
    }
}

/// The ordered list of known repositories plus per-entry status.
pub struct Registry {
    pub entries: Vec<Entry>,
    pub active: Option<String>,
}

impl View for Registry {
    type V = RegistryView;

    open spec fn view(&self) -> RegistryView {
        RegistryView { entries: self.entries.deep_view(), active: self.active.deep_view() }
    }
}

impl Registry {
    pub open spec fn wf(&self) -> bool {
        paths_distinct(self@.entries)
    }

    pub fn new() -> (r: Registry)
        ensures
            r@.entries == Seq::<EntryView>::empty(),
            r@.active == Option::<Seq<char>>::None,
            r.wf(),
    {
        let r = Registry { entries: Vec::new(), active: Option::None };
        proof {
            assert(r@.entries =~= Seq::<EntryView>::empty());
        }
        r
    }

    /// The index of the entry with the given path, if any.
    fn find_index(&self, path: &String) -> (r: Option<usize>)
        ensures
            match r {
                Option::Some(i) => i < self@.entries.len() && self@.entries[
                    i as int
                ].repository.path == path@,
                Option::None => !has_path(self@.entries, path@),
            },
    {
        let mut i: usize = 0;
        while i < self.entries.len()
            invariant
                i <= self@.entries.len(),
                self@.entries.len() == self.entries.len(),
                forall|k: int| 0 <= k < i ==> self@.entries[k].repository.path != path@,
            decreases self.entries.len() - i,
        {
            if self.entries[i].repository.path == *path {
                return Option::Some(i);
            }
            i = i + 1;
        }
        Option::None
    }

    /// Inserts a repository at the end with the given status; fails with
    /// `DuplicatePath` when the path is already present.
    pub fn add(&mut self, repository: Repository, status: RepositoryStatus) -> (r: Result<
        (),
        RegistryError,
    >)
        requires
            old(self).wf(),
        ensures
            final(self)@ == spec_add(old(self)@, repository@, status@),
            final(self).wf(),
            r is Ok <==> !has_path(old(self)@.entries, repository@.path),
            r is Err ==> r == Result::<(), RegistryError>::Err(RegistryError::DuplicatePath)
                && final(self)@ == old(self)@,
    {
        match self.find_index(&repository.path) {
            Option::Some(_) => Result::Err(RegistryError::DuplicatePath),
            Option::None => {
                self.entries.push(Entry { repository, status });
                proof {
                    assert(final(self)@.entries =~= spec_add(
                        old(self)@,
                        repository@,
                        status@,
                    ).entries);
                }
                Result::Ok(())
            },
        }
    }

    /// Updates the status of the entry with the given path; fails with
    /// `NotFound` when it is absent, so a missed target is reported rather
    /// than silently ignored.
    pub fn set_status(&mut self, path: &String, status: RepositoryStatus) -> (r: Result<
        (),
        RegistryError,
    >)
        requires
            old(self).wf(),
        ensures
            final(self)@ == spec_set_status(old(self)@, path@, status@),
            final(self).wf(),
            r is Ok <==> has_path(old(self)@.entries, path@),
            r is Err ==> r == Result::<(), RegistryError>::Err(RegistryError::NotFound)
                && final(self)@ == old(self)@,
    {
        match self.find_index(path) {
            Option::Some(i) => {
                let repository = self.entries[i].repository.clone();
                self.entries.set(i, Entry { repository, status });
                proof {
                    assert(final(self)@.entries =~= spec_set_status(
                        old(self)@,
                        path@,
                        status@,
                    ).entries);
                }
                Result::Ok(())
            },
            Option::None => {
                proof {
                    assert(final(self)@.entries =~= spec_set_status(
                        old(self)@,
                        path@,
                        status@,
                    ).entries);
                }
                Result::Err(RegistryError::NotFound)
            },
        }
    }

    /// Removes the entry with the given path; fails with `NotFound` when it
    /// is absent.  Removing the active entry leaves nothing active.
    pub fn remove(&mut self, path: &String) -> (r: Result<(), RegistryError>)
        requires
            old(self).wf(),
        ensures
            final(self)@ == spec_remove(old(self)@, path@),
            final(self).wf(),
            r is Ok <==> has_path(old(self)@.entries, path@),
            r is Err ==> r == Result::<(), RegistryError>::Err(RegistryError::NotFound)
                && final(self)@ == old(self)@,
    {
        match self.find_index(path) {
            Option::Some(i) => {
                self.entries.remove(i);
                let was_active = match &self.active {
                    Option::Some(a) => *a == *path,
                    Option::None => false,
                };
                if was_active {
                    self.active = Option::None;
                }
                proof {
                    let j = choose|j: int|
                        0 <= j < old(self)@.entries.len() && old(self)@.entries[
                            j
                        ].repository.path == path@;
                    assert(j == i as int);
                    assert(final(self)@.entries =~= spec_remove(old(self)@, path@).entries);
                }
                Result::Ok(())
            },
            Option::None => Result::Err(RegistryError::NotFound),
        }
    }

    /// Marks the entry with the given path active for navigation and hands
    /// back its repository; fails with `NotFound` when it is absent.  Marking
    /// active does not by itself unlock a session.
    pub fn select(&mut self, path: &String) -> (r: Result<Repository, RegistryError>)
        requires
            old(self).wf(),
        ensures
            final(self)@ == spec_select(old(self)@, path@),
            final(self).wf(),
            match r {
                Result::Ok(repo) => has_path(old(self)@.entries, path@) && repo@.path == path@
                    && repo@ == repo_at(old(self)@.entries, path@),
                Result::Err(e) => e == RegistryError::NotFound && !has_path(
                    old(self)@.entries,
                    path@,
                ) && final(self)@ == old(self)@,
            },
    {
        match self.find_index(path) {
            Option::Some(i) => {
                let repo = self.entries[i].repository.clone();
                self.active = Option::Some(path.clone());
                proof {
                    let j = choose|j: int|
                        0 <= j < old(self)@.entries.len() && old(self)@.entries[
                            j
                        ].repository.path == path@;
                    assert(j == i as int);
                }
                Result::Ok(repo)
            },
            Option::None => Result::Err(RegistryError::NotFound),
        }
    }

    /// The repository list in registry order, as it is pushed to the durable
    /// store.
    pub fn repositories(&self) -> (r: Vec<Repository>)
        ensures
            r.deep_view() == repos_of(self@.entries),
    {
        let mut r: Vec<Repository> = Vec::new();
        let mut i: usize = 0;
        while i < self.entries.len()
            invariant
                i <= self.entries.len(),
                self@.entries.len() == self.entries.len(),
                r.deep_view().len() == i,
                forall|k: int| 0 <= k < i ==> r.deep_view()[k] == self@.entries[k].repository,
            decreases self.entries.len() - i,
        {
            let ghost before = r.deep_view();
            r.push(self.entries[i].repository.clone());
            proof {
                assert forall|k: int| 0 <= k < i + 1 implies r.deep_view()[k] == self@.entries[
                    k
                ].repository by {
                    if k < i {
                        assert(r.deep_view()[k] == before[k]);
                    }
                };
            }
            i = i + 1;
        }
        proof {
            assert(r.deep_view() =~= repos_of(self@.entries));
        }
        r
    }
}

/// One structural registry operation, for stating the persistence law.
pub enum RegistryOp {
    Add(RepoView, StatusView),
    Remove(Seq<char>),
}

/// The registry after one structural operation.
pub open spec fn apply_op(r: RegistryView, op: RegistryOp) -> RegistryView {
    match op {
        RegistryOp::Add(repo, status) => spec_add(r, repo, status),
        RegistryOp::Remove(path) => spec_remove(r, path),
    }
}

/// Whether the operation structurally changes the registry (it is not refused
/// as a duplicate or a missed target).
pub open spec fn op_changes(r: RegistryView, op: RegistryOp) -> bool {
    match op {
        RegistryOp::Add(repo, _) => !has_path(r.entries, repo.path),
        RegistryOp::Remove(path) => has_path(r.entries, path),
    }
}

/// The durable store's content after one operation: every structural change
/// pushes the full repository list, a refused operation pushes nothing.
pub open spec fn saved_after_op(
    r: RegistryView,
    saved: Seq<RepoView>,
    op: RegistryOp,
) -> Seq<RepoView> {
    if op_changes(r, op) {
        repos_of(apply_op(r, op).entries)
    } else {
        saved
    }
}

/// Running a whole sequence of structural operations, tracking the registry
/// and the durable store side by side.
pub open spec fn run_ops(r: RegistryView, saved: Seq<RepoView>, ops: Seq<RegistryOp>) -> (
    RegistryView,
    Seq<RepoView>,
)
    decreases ops.len(),
{
    if ops.len() == 0 {
        (r, saved)
    } else {
        run_ops(apply_op(r, ops[0]), saved_after_op(r, saved, ops[0]), ops.drop_first())
    }
}

/// Persistence mirrors the registry: starting from a store that matches the
/// in-memory repository list, after any sequence of `add` / `remove`
/// operations whose writes are all applied, the persisted list again equals
/// the in-memory list.  A refused operation changes neither side, so the
/// match survives it; a failed write would merely leave the store stale while
/// the in-memory registry stays authoritative.
pub proof fn lemma_persisted_list_mirrors_registry(
    r: RegistryView,
    saved: Seq<RepoView>,
    ops: Seq<RegistryOp>,
)
    requires
        saved == repos_of(r.entries),
    ensures
        run_ops(r, saved, ops).1 == repos_of(run_ops(r, saved, ops).0.entries),
    decreases ops.len(),
{
    if ops.len() > 0 {
        let r1 = apply_op(r, ops[0]);
        let saved1 = saved_after_op(r, saved, ops[0]);
        if !op_changes(r, ops[0]) {
            assert(r1 == r);
        }
        lemma_persisted_list_mirrors_registry(r1, saved1, ops.drop_first());
    }
}

} // verus!
