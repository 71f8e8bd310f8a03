//! The typed inputs and outputs of the dispatcher.  An [`Event`] is either
//! user-originated or the terminal result of a background engine task; an
//! [`Effect`] is an outgoing request the surrounding runtime performs: persist
//! the configuration, or spawn one engine call off the interactive thread.

use vstd::prelude::*;
use crate::dialog::{DialogPage, DialogView};
use crate::types::{
    AppTheme, ConfigView, ContextPage, RepoView, Repository, SnapView, Snapshot, StellarshotConfig,
};

verus! {

/// The repository-creation lifecycle: a user-issued start, then exactly one
/// terminal engine result, success or failure, identified by the repository.
pub enum RepositoryAction {
    /// Begin creating a repository at the path, with the given password.
    Init(String, String),
    /// The engine confirmed initialisation of this repository.
    Created(Repository),
    /// The engine failed to initialise the repository at the path; the second
    /// field is its message.
    Error(String, String),
}

/// Mathematical value of a [`RepositoryAction`].
#[verifier::ext_equal]
pub enum RepositoryActionView {
    Init(Seq<char>, Seq<char>),
    Created(RepoView),
    Error(Seq<char>, Seq<char>),
}

impl View for RepositoryAction {
    type V = RepositoryActionView;

    open spec fn view(&self) -> RepositoryActionView {
        match self {
            RepositoryAction::Init(p, w) => RepositoryActionView::Init(p@, w@),
            RepositoryAction::Created(r) => RepositoryActionView::Created(r@),
            RepositoryAction::Error(p, m) => RepositoryActionView::Error(p@, m@),
        }
    }
}

/// One backup-engine call, to be run as a background task that later resolves
/// into exactly one terminal result [`Event`].
pub enum EngineCall {
    /// Initialise (or open) the encrypted store at the path.
    Init { path: String, password: String },
    /// Take a snapshot of the source paths into the repository.
    Backup { path: String, password: String, sources: Vec<String> },
    /// Fetch the repository's snapshot list.
    ListSnapshots { path: String, password: String },
    /// Delete the snapshots with the given ids from the repository.
    DeleteSnapshots { path: String, password: String, ids: Vec<String> },
    /// Remove the repository's underlying storage.
    RemoveRepository { path: String },
}

/// Mathematical value of an [`EngineCall`].
#[verifier::ext_equal]
pub enum CallView {
    Init { path: Seq<char>, password: Seq<char> },
    Backup { path: Seq<char>, password: Seq<char>, sources: Seq<Seq<char>> },
    ListSnapshots { path: Seq<char>, password: Seq<char> },
    DeleteSnapshots { path: Seq<char>, password: Seq<char>, ids: Seq<Seq<char>> },
    RemoveRepository { path: Seq<char> },
}

impl View for EngineCall {
    type V = CallView;

    open spec fn view(&self) -> CallView {
        match self {
            EngineCall::Init { path, password } => CallView::Init {
                path: path@,
                password: password@,
            },
            EngineCall::Backup { path, password, sources } => CallView::Backup {
                path: path@,
                password: password@,
                sources: sources.deep_view(),
            },
            EngineCall::ListSnapshots { path, password } => CallView::ListSnapshots {
                path: path@,
                password: password@,
            },
            EngineCall::DeleteSnapshots { path, password, ids } => CallView::DeleteSnapshots {
                path: path@,
                password: password@,
                ids: ids.deep_view(),
            },
            EngineCall::RemoveRepository { path } => CallView::RemoveRepository { path: path@ },
        }
    }
}

/// An outgoing side-effect request emitted by the dispatcher.
pub enum Effect {
    /// Write this configuration to the durable store.
    PersistConfig(StellarshotConfig),
    /// Run this engine call on the background execution context.
    SpawnTask(EngineCall),
}

/// Mathematical value of an [`Effect`].
#[verifier::ext_equal]
pub enum EffectView {
    PersistConfig(ConfigView),
    SpawnTask(CallView),
}

impl View for Effect {
    type V = EffectView;

    open spec fn view(&self) -> EffectView {
        match self {
            Effect::PersistConfig(c) => EffectView::PersistConfig(c@),
            Effect::SpawnTask(c) => EffectView::SpawnTask(c@),
        }
    }
}

impl DeepView for Effect {
    type V = EffectView;

    open spec fn deep_view(&self) -> EffectView {
        self@
    }
}

/// A typed input to the dispatcher: user interactions, dialog edits, and the
/// terminal results of background engine tasks.  Every result variant carries
/// the repository path it belongs to, so the dispatcher can check that it
/// still applies before mutating state.
pub enum Event {
    /// Queue a create-repository dialog for the chosen directory.
    OpenCreateRepositoryDialog(String),
    /// Queue a create-snapshot dialog for the chosen source paths.
    OpenCreateSnapshotDialog(Vec<String>),
    /// Mark the repository at the path active and, unless it is already the
    /// unlocked one, queue a password dialog for it.
    SelectRepository(String),
    /// Queue a confirmation dialog for deleting the active repository.
    RequestDeleteRepository,
    /// Delete these snapshots of the active repository.
    RequestDeleteSnapshots(Vec<String>),
    /// Dismiss the front dialog.
    DialogCancel,
    /// Complete the front dialog and run the workflow it stands for.
    DialogComplete,
    /// Replace the front dialog's editable fields.
    DialogUpdate(DialogPage),
    /// A step of the repository-creation lifecycle.
    Repository(RepositoryAction),
    /// A snapshot-list fetch resolved for the repository at the path.
    SnapshotsFetched(String, Vec<Snapshot>),
    /// A snapshot-list fetch failed; the second field is the engine message.
    SnapshotsFetchFailed(String, String),
    /// A snapshot was created in the repository at the path.
    SnapshotCreated(String),
    /// Creating a snapshot failed; the second field is the engine message.
    SnapshotCreateFailed(String, String),
    /// The requested snapshots were deleted from the repository at the path.
    SnapshotsDeleted(String),
    /// Deleting snapshots failed; the second field is the engine message.
    SnapshotsDeleteFailed(String, String),
    /// The repository's underlying storage was removed.
    RepositoryRemoved(String),
    /// Removing the repository's storage failed.
    RepositoryRemoveFailed(String, String),
    /// The user picked a colour-scheme preference.
    SetTheme(AppTheme),
    /// Show, switch, or hide the context drawer page.
    ToggleContextPage(ContextPage),
}

/// Mathematical value of an [`Event`].
#[verifier::ext_equal]
pub enum EventView {
    OpenCreateRepositoryDialog(Seq<char>),
    OpenCreateSnapshotDialog(Seq<Seq<char>>),
    SelectRepository(Seq<char>),
    RequestDeleteRepository,
    RequestDeleteSnapshots(Seq<Seq<char>>),
    DialogCancel,
    DialogComplete,
    DialogUpdate(DialogView),
    Repository(RepositoryActionView),
    SnapshotsFetched(Seq<char>, Seq<SnapView>),
    SnapshotsFetchFailed(Seq<char>, Seq<char>),
    SnapshotCreated(Seq<char>),
    SnapshotCreateFailed(Seq<char>, Seq<char>),
    SnapshotsDeleted(Seq<char>),
    SnapshotsDeleteFailed(Seq<char>, Seq<char>),
    RepositoryRemoved(Seq<char>),
    RepositoryRemoveFailed(Seq<char>, Seq<char>),
    SetTheme(AppTheme),
    ToggleContextPage(ContextPage),
}

impl View for Event {
    type V = EventView;

    open spec fn view(&self) -> EventView {
        match self {
            Event::OpenCreateRepositoryDialog(p) => EventView::OpenCreateRepositoryDialog(p@),
            Event::OpenCreateSnapshotDialog(s) => EventView::OpenCreateSnapshotDialog(
                s.deep_view(),
            ),
            Event::SelectRepository(p) => EventView::SelectRepository(p@),
            Event::RequestDeleteRepository => EventView::RequestDeleteRepository,
            Event::RequestDeleteSnapshots(ids) => EventView::RequestDeleteSnapshots(
                ids.deep_view(),
            ),
            Event::DialogCancel => EventView::DialogCancel,
            Event::DialogComplete => EventView::DialogComplete,
            Event::DialogUpdate(d) => EventView::DialogUpdate(d@),
            Event::Repository(a) => EventView::Repository(a@),
            Event::SnapshotsFetched(p, l) => EventView::SnapshotsFetched(p@, l.deep_view()),
            Event::SnapshotsFetchFailed(p, m) => EventView::SnapshotsFetchFailed(p@, m@),
            Event::SnapshotCreated(p) => EventView::SnapshotCreated(p@),
            Event::SnapshotCreateFailed(p, m) => EventView::SnapshotCreateFailed(p@, m@),
            Event::SnapshotsDeleted(p) => EventView::SnapshotsDeleted(p@),
            Event::SnapshotsDeleteFailed(p, m) => EventView::SnapshotsDeleteFailed(p@, m@),
            Event::RepositoryRemoved(p) => EventView::RepositoryRemoved(p@),
            Event::RepositoryRemoveFailed(p, m) => EventView::RepositoryRemoveFailed(p@, m@),
            Event::SetTheme(t) => EventView::SetTheme(*t),
            Event::ToggleContextPage(c) => EventView::ToggleContextPage(*c),
        }
    }
}

} // verus!
