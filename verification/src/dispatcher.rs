//! The command dispatcher: the single state-transition function of the core.
//! `App::handle` consumes one event, updates registry, session, and dialog
//! queue, and returns the effects to perform.  It runs to completion
//! synchronously — it never blocks and never calls the engine itself — and it
//! is the only place that mutates the components, which is what makes their
//! invariants enforceable.
//!
//! Every exec transition is proved equal to a spec transition over the state
//! views, and the cross-step laws (persistence mirroring, stale-fetch
//! discard, single-save creation, single-call deletion) are proved about
//! those spec transitions.

use vstd::prelude::*;
use crate::dialog::{spec_cancel, spec_push, spec_update_front, DialogPage, DialogStack, DialogView};
use crate::events::{
    CallView, EffectView, Effect, EngineCall, Event, EventView, RepositoryAction,
    RepositoryActionView,
};
use crate::registry::{
    has_path, paths_distinct, repo_at, repos_of, spec_add, spec_remove, spec_select,
    spec_set_status, EntryView, Registry, RegistryView,
};
use crate::session::{
    spec_closed_session, spec_ids_cached, spec_open, spec_set_snapshots, Session, SessionView,
};
use crate::types::{
    spec_name_of_path, name_of_path, AppTheme, ConfigView, ContextPage, RepoView, Repository,
    RepositoryStatus, StatusView, StellarshotConfig,
};

verus! {

/// Mathematical value of the whole orchestration state.
#[verifier::ext_equal]
pub struct AppView {
    pub registry: RegistryView,
    pub session: SessionView,
    pub dialogs: Seq<DialogView>,
    pub app_theme: AppTheme,
    pub context_page: ContextPage,
    pub show_context: bool,
    pub notification: Option<Seq<char>>,
}

/// One dispatcher step: the state after the event and the effects it emits.
#[verifier::ext_equal]
pub struct StepView {
    pub state: AppView,
    pub effects: Seq<EffectView>,
}

/// A step that only updates state.
pub open spec fn no_effects(state: AppView) -> StepView {
    StepView { state, effects: Seq::empty() }
}

/// The configuration that a persistence effect carries: the current theme and
/// the registry's full repository list.  The session password is never part
/// of it.
pub open spec fn spec_config(s: AppView) -> ConfigView {
    ConfigView { app_theme: s.app_theme, repositories: repos_of(s.registry.entries) }
}

/// The repository-creation lifecycle.  A fresh path is added as a `Pending`
/// entry, the full list is persisted once, and one engine `init` task is
/// spawned; a duplicate path is refused with a notification and nothing is
/// spawned.  The terminal engine result only updates the entry's status —
/// `Ready` on success, `Failed` with the message on error — and persists
/// nothing further.
pub open spec fn spec_on_repository_action(s: AppView, a: RepositoryActionView) -> StepView {
    match a {
        RepositoryActionView::Init(path, password) => {
            if has_path(s.registry.entries, path) {
                no_effects(
                    AppView { notification: Option::Some("repository already exists"@), ..s },
                )
            } else {
                let repo = RepoView { name: spec_name_of_path(path), path };
                let state = AppView {
                    registry: spec_add(s.registry, repo, StatusView::Pending),
                    ..s
                };
                StepView {
                    state,
                    effects: seq![
                        EffectView::PersistConfig(spec_config(state)),
                        EffectView::SpawnTask(CallView::Init { path, password }),
                    ],
                }
            }
        },
        RepositoryActionView::Created(repo) => no_effects(
            AppView { registry: spec_set_status(s.registry, repo.path, StatusView::Ready), ..s },
        ),
        RepositoryActionView::Error(path, message) => no_effects(
            AppView {
                registry: spec_set_status(s.registry, path, StatusView::Failed(message)),
                ..s
            },
        ),
    }
}

/// Completing the front dialog: it is popped first, then interpreted, so no
/// workflow can be completed twice.  Each variant maps to exactly one domain
/// step; with no active session the snapshot and removal workflows do
/// nothing.
pub open spec fn spec_on_dialog_complete(s: AppView) -> StepView {
    if s.dialogs.len() == 0 {
        no_effects(s)
    } else {
        let front = s.dialogs[0];
        let s1 = AppView { dialogs: spec_cancel(s.dialogs), ..s };
        match front {
            DialogView::CreateRepository(path, password) => spec_on_repository_action(
                s1,
                RepositoryActionView::Init(path, password),
            ),
            DialogView::CreateSnapshot(sources) => match s1.session.repository {
                Option::Some(r) => StepView {
                    state: s1,
                    effects: seq![
                        EffectView::SpawnTask(
                            CallView::Backup {
                                path: r.path,
                                password: s1.session.password,
                                sources,
                            },
                        ),
                    ],
                },
                Option::None => no_effects(s1),
            },
            DialogView::Password(repo, password) => StepView {
                state: AppView { session: spec_open(s1.session, repo, password), ..s1 },
                effects: seq![
                    EffectView::SpawnTask(CallView::ListSnapshots { path: repo.path, password }),
                ],
            },
            DialogView::DeleteRepository => match s1.session.repository {
                Option::Some(r) => StepView {
                    state: s1,
                    effects: seq![
                        EffectView::SpawnTask(CallView::RemoveRepository { path: r.path }),
                    ],
                },
                Option::None => no_effects(s1),
            },
        }
    }
}

/// Selecting a repository marks it active and, unless it is already the
/// unlocked one, queues a password dialog for it; an unknown path does
/// nothing.  Selection alone never unlocks a session.
pub open spec fn spec_on_select(s: AppView, path: Seq<char>) -> StepView {
    if has_path(s.registry.entries, path) {
        let repo = repo_at(s.registry.entries, path);
        let already = match s.session.repository {
            Option::Some(r) => r.path == path,
            Option::None => false,
        };
        let dialogs = if already {
            s.dialogs
        } else {
            spec_push(s.dialogs, DialogView::Password(repo, Seq::empty()))
        };
        no_effects(AppView { registry: spec_select(s.registry, path), dialogs, ..s })
    } else {
        no_effects(s)
    }
}

/// Requesting snapshot deletion issues exactly one engine call carrying the
/// given ids against the active repository — but only when every id comes
/// from the current cache, so ids from a previously selected repository are
/// never sent.  The cache itself is not touched.
pub open spec fn spec_on_request_delete(s: AppView, ids: Seq<Seq<char>>) -> StepView {
    match s.session.repository {
        Option::Some(r) => if spec_ids_cached(s.session, ids) {
            StepView {
                state: s,
                effects: seq![
                    EffectView::SpawnTask(
                        CallView::DeleteSnapshots {
                            path: r.path,
                            password: s.session.password,
                            ids,
                        },
                    ),
                ],
            }
        } else {
            no_effects(s)
        },
        Option::None => no_effects(s),
    }
}

/// A snapshot was created in or deleted from the repository at `path`: when
/// that is still the active repository, exactly one re-fetch of its snapshot
/// list is spawned — the cache is never spliced locally.  A result for any
/// other repository is stale and dropped.
pub open spec fn spec_refetch_if_current(s: AppView, path: Seq<char>) -> StepView {
    match s.session.repository {
        Option::Some(r) => if r.path == path {
            StepView {
                state: s,
                effects: seq![
                    EffectView::SpawnTask(
                        CallView::ListSnapshots { path, password: s.session.password },
                    ),
                ],
            }
        } else {
            no_effects(s)
        },
        Option::None => no_effects(s),
    }
}

/// The repository's storage was removed: the entry leaves the registry, the
/// new list is persisted once, and a session unlocked on it is closed.  An
/// unknown path changes nothing and persists nothing.
pub open spec fn spec_on_repository_removed(s: AppView, path: Seq<char>) -> StepView {
    let session = match s.session.repository {
        Option::Some(r) => if r.path == path {
            spec_closed_session()
        } else {
            s.session
        },
        Option::None => s.session,
    };
    let state = AppView { registry: spec_remove(s.registry, path), session, ..s };
    if has_path(s.registry.entries, path) {
        StepView { state, effects: seq![EffectView::PersistConfig(spec_config(state))] }
    } else {
        StepView { state, effects: Seq::empty() }
    }
}

/// The whole dispatcher as one transition function over state views.
pub open spec fn spec_handle(s: AppView, e: EventView) -> StepView {
    match e {
        EventView::OpenCreateRepositoryDialog(path) => no_effects(
            AppView {
                dialogs: spec_push(s.dialogs, DialogView::CreateRepository(path, Seq::empty())),
                ..s
            },
        ),
        EventView::OpenCreateSnapshotDialog(sources) => no_effects(
            AppView { dialogs: spec_push(s.dialogs, DialogView::CreateSnapshot(sources)), ..s },
        ),
        EventView::SelectRepository(path) => spec_on_select(s, path),
        EventView::RequestDeleteRepository => no_effects(
            AppView { dialogs: spec_push(s.dialogs, DialogView::DeleteRepository), ..s },
        ),
        EventView::RequestDeleteSnapshots(ids) => spec_on_request_delete(s, ids),
        EventView::DialogCancel => no_effects(AppView { dialogs: spec_cancel(s.dialogs), ..s }),
        EventView::DialogComplete => spec_on_dialog_complete(s),
        EventView::DialogUpdate(d) => no_effects(
            AppView { dialogs: spec_update_front(s.dialogs, d), ..s },
        ),
        EventView::Repository(a) => spec_on_repository_action(s, a),
        EventView::SnapshotsFetched(path, list) => no_effects(
            AppView { session: spec_set_snapshots(s.session, path, list), ..s },
        ),
        EventView::SnapshotsFetchFailed(_path, message) => no_effects(
            AppView { notification: Option::Some(message), ..s },
        ),
        EventView::SnapshotCreated(path) => spec_refetch_if_current(s, path),
        EventView::SnapshotCreateFailed(_path, message) => no_effects(
            AppView { notification: Option::Some(message), ..s },
        ),
        EventView::SnapshotsDeleted(path) => spec_refetch_if_current(s, path),
        EventView::SnapshotsDeleteFailed(_path, message) => no_effects(
            AppView { notification: Option::Some(message), ..s },
        ),
        EventView::RepositoryRemoved(path) => spec_on_repository_removed(s, path),
        EventView::RepositoryRemoveFailed(_path, message) => no_effects(
            AppView { notification: Option::Some(message), ..s },
        ),
        EventView::SetTheme(t) => {
            let state = AppView { app_theme: t, ..s };
            StepView { state, effects: seq![EffectView::PersistConfig(spec_config(state))] }
        },
        EventView::ToggleContextPage(page) => no_effects(
            if s.context_page == page {
                AppView { show_context: !s.show_context, ..s }
            } else {
                AppView { context_page: page, show_context: true, ..s }
            },
        ),
    }
}

/// Seeding a registry from the persisted repository list, every entry
/// `Ready`; a duplicated path in the stored list is kept once.
pub open spec fn spec_seed_registry(repos: Seq<RepoView>) -> RegistryView
    decreases repos.len(),
{
    if repos.len() == 0 {
        RegistryView { entries: Seq::empty(), active: Option::None }
    } else {
        spec_add(spec_seed_registry(repos.drop_last()), repos.last(), StatusView::Ready)
    }
}

/// The state the process starts from: the registry rehydrated from the loaded
/// configuration, a closed session, no dialogs, nothing shown.
pub open spec fn spec_initial_app(c: ConfigView) -> AppView {
    AppView {
        registry: spec_seed_registry(c.repositories),
        session: spec_closed_session(),
        dialogs: Seq::empty(),
        app_theme: c.app_theme,
        context_page: ContextPage::Settings,
        show_context: false,
        notification: Option::None,
    }
}

/// The orchestration core: registry, session, and dialog queue, plus the UI
/// preferences the dispatcher manages.  Owned for the lifetime of the
/// process; only `handle` mutates it.
pub struct App {
    pub registry: Registry,
    pub session: Session,
    pub dialogs: DialogStack,
    pub app_theme: AppTheme,
    pub context_page: ContextPage,
    pub show_context: bool,
    pub notification: Option<String>,
}

impl View for App {
    type V = AppView;

    open spec fn view(&self) -> AppView {
        AppView {
            registry: self.registry@,
            session: self.session@,
            dialogs: self.dialogs@,
            app_theme: self.app_theme,
            context_page: self.context_page,
            show_context: self.show_context,
            notification: self.notification.deep_view(),
        }
    }
}

impl App {
    pub open spec fn wf(&self) -> bool {
        paths_distinct(self@.registry.entries)
    }

    /// Builds the starting state from the loaded configuration.
    pub fn init(config: StellarshotConfig) -> (app: App)
        ensures
            app@ == spec_initial_app(config@),
            app.wf(),
    {
        let mut app = App {
            registry: Registry::new(),
            session: Session::new(),
            dialogs: DialogStack::new(),
            app_theme: config.app_theme,
            context_page: ContextPage::Settings,
            show_context: false,
            notification: Option::None,
        };
        let repos = config.repositories;
        let mut i: usize = 0;
        while i < repos.len()
            invariant
                i <= repos.len(),
                app.wf(),
                app.registry@ == spec_seed_registry(repos.deep_view().subrange(0, i as int)),
                app.session@ == spec_closed_session(),
                app.dialogs@ == Seq::<DialogView>::empty(),
                app.app_theme == config.app_theme,
                app.context_page == ContextPage::Settings,
                app.show_context == false,
                app.notification.deep_view() == Option::<Seq<char>>::None,
            decreases repos.len() - i,
        {
            let ghost prefix = repos.deep_view().subrange(0, i as int);
            let _ = app.registry.add(repos[i].clone(), RepositoryStatus::Ready);
            proof {
                let next = repos.deep_view().subrange(0, i + 1);
                assert(next.drop_last() =~= prefix);
                assert(next.last() == repos.deep_view()[i as int]);
            }
            i = i + 1;
        }
        proof {
            assert(repos.deep_view().subrange(0, repos.deep_view().len() as int) =~= repos.deep_view());
            assert(app@ =~= spec_initial_app(config@));
        }
        app
    }

    /// The configuration as it would be persisted right now.
    fn current_config(&self) -> (c: StellarshotConfig)
        ensures
            c@ == spec_config(self@),
    {
        let c = StellarshotConfig {
            app_theme: self.app_theme,
            repositories: self.registry.repositories(),
        };
        proof {
            assert(c@ =~= spec_config(self@));
        }
        c
    }

    /// One step of the repository-creation lifecycle.
    fn on_repository_action(&mut self, action: RepositoryAction) -> (effects: Vec<Effect>)
        requires
            old(self).wf(),
        ensures
            final(self).wf(),
            final(self)@ == spec_on_repository_action(old(self)@, action@).state,
            effects.deep_view() == spec_on_repository_action(old(self)@, action@).effects,
    {
        let mut effects: Vec<Effect> = Vec::new();
        match action {
            RepositoryAction::Init(path, password) => {
                let name = name_of_path(path.as_str());
                let repository = Repository { name, path: path.clone() };
                match self.registry.add(repository, RepositoryStatus::Pending) {
                    Result::Ok(()) => {
                        let config = self.current_config();
                        effects.push(Effect::PersistConfig(config));
                        effects.push(Effect::SpawnTask(EngineCall::Init { path, password }));
                        proof {
                            let step = spec_on_repository_action(
                                old(self)@,
                                RepositoryActionView::Init(path@, password@),
                            );
                            assert(self@ =~= step.state);
                            assert(effects.deep_view() =~= step.effects);
                        }
                    },
                    Result::Err(_) => {
                        self.notification = Option::Some("repository already exists".to_owned());
                        proof {
                            let step = spec_on_repository_action(
                                old(self)@,
                                RepositoryActionView::Init(path@, password@),
                            );
                            assert(self@ =~= step.state);
                            assert(effects.deep_view() =~= step.effects);
                        }
                    },
                }
            },
            RepositoryAction::Created(repository) => {
                let _ = self.registry.set_status(&repository.path, RepositoryStatus::Ready);
                proof {
                    let step = spec_on_repository_action(
                        old(self)@,
                        RepositoryActionView::Created(repository@),
                    );
                    assert(self@ =~= step.state);
                    assert(effects.deep_view() =~= step.effects);
                }
            },
            RepositoryAction::Error(path, message) => {
                let _ = self.registry.set_status(&path, RepositoryStatus::Failed(message));
                proof {
                    let step = spec_on_repository_action(
                        old(self)@,
                        RepositoryActionView::Error(path@, message@),
                    );
                    assert(self@ =~= step.state);
                    assert(effects.deep_view() =~= step.effects);
                }
            },
        }
        effects
    }

    /// Pops and interprets the front dialog.
    fn on_dialog_complete(&mut self) -> (effects: Vec<Effect>)
        requires
            old(self).wf(),
        ensures
            final(self).wf(),
            final(self)@ == spec_on_dialog_complete(old(self)@).state,
            effects.deep_view() == spec_on_dialog_complete(old(self)@).effects,
    {
        match self.dialogs.complete() {
            Option::None => {
                let effects: Vec<Effect> = Vec::new();
                proof {
                    assert(self@ =~= spec_on_dialog_complete(old(self)@).state);
                    assert(effects.deep_view() =~= spec_on_dialog_complete(old(self)@).effects);
                }
                effects
            },
            Option::Some(page) => {
                let ghost s1 = self@;
                proof {
                    assert(s1 =~= AppView { dialogs: spec_cancel(old(self)@.dialogs), ..old(self)@ });
                }
                match page {
                    DialogPage::CreateRepository(path, password) => {
                        let effects = self.on_repository_action(
                            RepositoryAction::Init(path, password),
                        );
                        proof {
                            assert(self@ =~= spec_on_dialog_complete(old(self)@).state);
                            assert(effects.deep_view() =~= spec_on_dialog_complete(
                                old(self)@,
                            ).effects);
                        }
                        effects
                    },
                    DialogPage::CreateSnapshot(sources) => {
                        let mut effects: Vec<Effect> = Vec::new();
                        match &self.session.repository {
                            Option::Some(r) => {
                                let path = r.path.clone();
                                let password = self.session.password.clone();
                                effects.push(
                                    Effect::SpawnTask(
                                        EngineCall::Backup { path, password, sources },
                                    ),
                                );
                            },
                            Option::None => {},
                        }
                        proof {
                            assert(self@ =~= spec_on_dialog_complete(old(self)@).state);
                            assert(effects.deep_view() =~= spec_on_dialog_complete(
                                old(self)@,
                            ).effects);
                        }
                        effects
                    },
                    DialogPage::Password(repository, password) => {
                        let mut effects: Vec<Effect> = Vec::new();
                        let path = repository.path.clone();
                        let call_password = password.clone();
                        self.session.open(repository, password);
                        effects.push(
                            Effect::SpawnTask(
                                EngineCall::ListSnapshots { path, password: call_password },
                            ),
                        );
                        proof {
                            assert(self@ =~= spec_on_dialog_complete(old(self)@).state);
                            assert(effects.deep_view() =~= spec_on_dialog_complete(
                                old(self)@,
                            ).effects);
                        }
                        effects
                    },
                    DialogPage::DeleteRepository => {
                        let mut effects: Vec<Effect> = Vec::new();
                        match &self.session.repository {
                            Option::Some(r) => {
                                let path = r.path.clone();
                                effects.push(
                                    Effect::SpawnTask(EngineCall::RemoveRepository { path }),
                                );
                            },
                            Option::None => {},
                        }
                        proof {
                            assert(self@ =~= spec_on_dialog_complete(old(self)@).state);
                            assert(effects.deep_view() =~= spec_on_dialog_complete(
                                old(self)@,
                            ).effects);
                        }
                        effects
                    },
                }
            },
        }
    }

    /// The single entry point: consumes one event, updates the state, and
    /// returns the effects to perform.  Runs to completion synchronously.
    pub fn handle(&mut self, event: Event) -> (effects: Vec<Effect>)
        requires
            old(self).wf(),
        ensures
            final(self).wf(),
            final(self)@ == spec_handle(old(self)@, event@).state,
            effects.deep_view() == spec_handle(old(self)@, event@).effects,
    {
        match event {
            Event::OpenCreateRepositoryDialog(path) => {
                self.dialogs.push(DialogPage::CreateRepository(path, String::new()));
                let effects: Vec<Effect> = Vec::new();
                proof {
                    assert(self@ =~= spec_handle(old(self)@, event@).state);
                    assert(effects.deep_view() =~= spec_handle(old(self)@, event@).effects);
                }
                effects
            },
            Event::OpenCreateSnapshotDialog(sources) => {
                self.dialogs.push(DialogPage::CreateSnapshot(sources));
                let effects: Vec<Effect> = Vec::new();
                proof {
                    assert(self@ =~= spec_handle(old(self)@, event@).state);
                    assert(effects.deep_view() =~= spec_handle(old(self)@, event@).effects);
                }
                effects
            },
            Event::SelectRepository(path) => {
                match self.registry.select(&path) {
                    Result::Ok(repository) => {
                        let already = match &self.session.repository {
                            Option::Some(r) => r.path == repository.path,
                            Option::None => false,
                        };
                        if !already {
                            self.dialogs.push(DialogPage::Password(repository, String::new()));
                        }
                    },
                    Result::Err(_) => {},
                }
                let effects: Vec<Effect> = Vec::new();
                proof {
                    assert(self@ =~= spec_handle(old(self)@, event@).state);
                    assert(effects.deep_view() =~= spec_handle(old(self)@, event@).effects);
                }
                effects
            },
            Event::RequestDeleteRepository => {
                self.dialogs.push(DialogPage::DeleteRepository);
                let effects: Vec<Effect> = Vec::new();
                proof {
                    assert(self@ =~= spec_handle(old(self)@, event@).state);
                    assert(effects.deep_view() =~= spec_handle(old(self)@, event@).effects);
                }
                effects
            },
            Event::RequestDeleteSnapshots(ids) => {
                let mut effects: Vec<Effect> = Vec::new();
                let is_open = match &self.session.repository {
                    Option::Some(_) => true,
                    Option::None => false,
                };
                if is_open && self.session.ids_cached(&ids) {
                    match self.session.request_delete(ids) {
                        Result::Ok(req) => {
                            effects.push(
                                Effect::SpawnTask(
                                    EngineCall::DeleteSnapshots {
                                        path: req.path,
                                        password: req.password,
                                        ids: req.ids,
                                    },
                                ),
                            );
                        },
                        Result::Err(_) => {},
                    }
                }
                proof {
                    assert(self@ =~= spec_handle(old(self)@, event@).state);
                    assert(effects.deep_view() =~= spec_handle(old(self)@, event@).effects);
                }
                effects
            },
            Event::DialogCancel => {
                self.dialogs.cancel();
                let effects: Vec<Effect> = Vec::new();
                proof {
                    assert(self@ =~= spec_handle(old(self)@, event@).state);
                    assert(effects.deep_view() =~= spec_handle(old(self)@, event@).effects);
                }
                effects
            },
            Event::DialogComplete => self.on_dialog_complete(),
            Event::DialogUpdate(d) => {
                let _ = self.dialogs.update_front(d);
                let effects: Vec<Effect> = Vec::new();
                proof {
                    assert(self@ =~= spec_handle(old(self)@, event@).state);
                    assert(effects.deep_view() =~= spec_handle(old(self)@, event@).effects);
                }
                effects
            },
            Event::Repository(action) => self.on_repository_action(action),
            Event::SnapshotsFetched(path, list) => {
                let _ = self.session.set_snapshots(&path, list);
                let effects: Vec<Effect> = Vec::new();
                proof {
                    assert(self@ =~= spec_handle(old(self)@, event@).state);
                    assert(effects.deep_view() =~= spec_handle(old(self)@, event@).effects);
                }
                effects
            },
            Event::SnapshotsFetchFailed(_path, message) => {
                self.notification = Option::Some(message);
                let effects: Vec<Effect> = Vec::new();
                proof {
                    assert(self@ =~= spec_handle(old(self)@, event@).state);
                    assert(effects.deep_view() =~= spec_handle(old(self)@, event@).effects);
                }
                effects
            },
            Event::SnapshotCreated(path) => self.refetch_if_current(path),
            Event::SnapshotCreateFailed(_path, message) => {
                self.notification = Option::Some(message);
                let effects: Vec<Effect> = Vec::new();
                proof {
                    assert(self@ =~= spec_handle(old(self)@, event@).state);
                    assert(effects.deep_view() =~= spec_handle(old(self)@, event@).effects);
                }
                effects
            },
            Event::SnapshotsDeleted(path) => self.refetch_if_current(path),
            Event::SnapshotsDeleteFailed(_path, message) => {
                self.notification = Option::Some(message);
                let effects: Vec<Effect> = Vec::new();
                proof {
                    assert(self@ =~= spec_handle(old(self)@, event@).state);
                    assert(effects.deep_view() =~= spec_handle(old(self)@, event@).effects);
                }
                effects
            },
            Event::RepositoryRemoved(path) => {
                let mut effects: Vec<Effect> = Vec::new();
                match self.registry.remove(&path) {
                    Result::Ok(()) => {
                        let config = self.current_config();
                        effects.push(Effect::PersistConfig(config));
                    },
                    Result::Err(_) => {},
                }
                let was_current = match &self.session.repository {
                    Option::Some(r) => r.path == path,
                    Option::None => false,
                };
                if was_current {
                    self.session.close();
                }
                proof {
                    assert(self@ =~= spec_handle(old(self)@, event@).state);
                    assert(effects.deep_view() =~= spec_handle(old(self)@, event@).effects);
                }
                effects
            },
            Event::RepositoryRemoveFailed(_path, message) => {
                self.notification = Option::Some(message);
                let effects: Vec<Effect> = Vec::new();
                proof {
                    assert(self@ =~= spec_handle(old(self)@, event@).state);
                    assert(effects.deep_view() =~= spec_handle(old(self)@, event@).effects);
                }
                effects
            },
            Event::SetTheme(t) => {
                self.app_theme = t;
                let config = self.current_config();
                let mut effects: Vec<Effect> = Vec::new();
                effects.push(Effect::PersistConfig(config));
                proof {
                    assert(self@ =~= spec_handle(old(self)@, event@).state);
                    assert(effects.deep_view() =~= spec_handle(old(self)@, event@).effects);
                }
                effects
            },
            Event::ToggleContextPage(page) => {
                if self.context_page == page {
                    self.show_context = !self.show_context;
                } else {
                    self.context_page = page;
                    self.show_context = true;
                }
                let effects: Vec<Effect> = Vec::new();
                proof {
                    assert(self@ =~= spec_handle(old(self)@, event@).state);
                    assert(effects.deep_view() =~= spec_handle(old(self)@, event@).effects);
                }
                effects
            },
        }
    }

    /// Spawns one snapshot-list re-fetch when the given repository is still
    /// the active one.
    fn refetch_if_current(&mut self, path: String) -> (effects: Vec<Effect>)
        ensures
            final(self)@ == spec_refetch_if_current(old(self)@, path@).state,
            effects.deep_view() == spec_refetch_if_current(old(self)@, path@).effects,
            final(self)@ == old(self)@,
    {
        let mut effects: Vec<Effect> = Vec::new();
        let matches = match &self.session.repository {
            Option::Some(r) => r.path == path,
            Option::None => false,
        };
        if matches {
            let password = self.session.password.clone();
            effects.push(Effect::SpawnTask(EngineCall::ListSnapshots { path, password }));
        }
        proof {
            assert(effects.deep_view() =~= spec_refetch_if_current(old(self)@, path@).effects);
        }
        effects
    }
}

/// The configurations that a step's persistence effects carry, in order: what
/// reaches the durable store.
pub open spec fn saves_in(effects: Seq<EffectView>) -> Seq<ConfigView>
    decreases effects.len(),
{
    if effects.len() == 0 {
        Seq::empty()
    } else {
        let rest = saves_in(effects.drop_first());
        match effects[0] {
            EffectView::PersistConfig(c) => seq![c] + rest,
            EffectView::SpawnTask(_) => rest,
        }
    }
}

/// Completing a create-repository dialog for a fresh path and then receiving
/// the engine's success leaves exactly one registry entry for that path, with
/// status `Ready`, while every other entry is untouched; across the two steps
/// exactly one configuration is persisted, and it contains the new
/// repository.  The dialog completion also spawns exactly one engine `init`
/// task, and the success itself spawns nothing further.
pub proof fn lemma_create_repository_flow(s: AppView, path: Seq<char>, password: Seq<char>)
    requires
        paths_distinct(s.registry.entries),
        s.dialogs.len() > 0,
        s.dialogs[0] == DialogView::CreateRepository(path, password),
        !has_path(s.registry.entries, path),
    ensures
        ({
            let repo = RepoView { name: spec_name_of_path(path), path };
            let step1 = spec_handle(s, EventView::DialogComplete);
            let step2 = spec_handle(
                step1.state,
                EventView::Repository(RepositoryActionView::Created(repo)),
            );
            let n = s.registry.entries.len() as int;
            &&& step2.state.registry.entries.len() == n + 1
            &&& step2.state.registry.entries[n] == (EntryView {
                repository: repo,
                status: StatusView::Ready,
            })
            &&& forall|j: int|
                0 <= j < n ==> step2.state.registry.entries[j] == s.registry.entries[j]
                    && step2.state.registry.entries[j].repository.path != path
            &&& saves_in(step1.effects + step2.effects) == seq![spec_config(step1.state)]
            &&& spec_config(step1.state).repositories == repos_of(s.registry.entries).push(repo)
            &&& step1.effects == seq![
                EffectView::PersistConfig(spec_config(step1.state)),
                EffectView::SpawnTask(CallView::Init { path, password }),
            ]
            &&& step2.effects == Seq::<EffectView>::empty()
        }),
{
    let repo = RepoView { name: spec_name_of_path(path), path };
    let step1 = spec_handle(s, EventView::DialogComplete);
    let step2 = spec_handle(
        step1.state,
        EventView::Repository(RepositoryActionView::Created(repo)),
    );
    let n = s.registry.entries.len() as int;
    assert(step1.state.registry.entries =~= s.registry.entries.push(
        EntryView { repository: repo, status: StatusView::Pending },
    ));
    assert(step2.state.registry.entries[n] == (EntryView {
        repository: repo,
        status: StatusView::Ready,
    }));
    assert(spec_config(step1.state).repositories =~= repos_of(s.registry.entries).push(repo));
    let e = step1.effects + step2.effects;
    assert(e =~= step1.effects);
    assert(e.drop_first() =~= seq![EffectView::SpawnTask(CallView::Init { path, password })]);
    assert(e.drop_first().drop_first() =~= Seq::<EffectView>::empty());
    assert(saves_in(e.drop_first().drop_first()) == Seq::<ConfigView>::empty());
    assert(saves_in(e.drop_first()) =~= Seq::<ConfigView>::empty());
    assert(saves_in(e) =~= seq![spec_config(step1.state)]);
}

/// Snapshot ids from a previously selected repository can never be sent:
/// opening a session resets the cache to unknown, and while the cache is
/// unknown no deletion request passes the cache check, whatever ids it
/// carries.  Only ids from the newly active repository's own fetch can ever
/// reach the engine.
pub proof fn lemma_fresh_session_sends_no_deletes(
    s: AppView,
    repo: RepoView,
    password: Seq<char>,
    ids: Seq<Seq<char>>,
)
    ensures
        ({
            let s1 = AppView { session: spec_open(s.session, repo, password), ..s };
            spec_on_request_delete(s1, ids) == no_effects(s1)
        }),
{
}

/// Requesting deletion of cached snapshot ids issues exactly one engine
/// delete call carrying exactly those ids against the active repository, and
/// the engine's success triggers exactly one snapshot-list re-fetch for that
/// repository.  Neither step touches the state: the cached list is refreshed
/// by the engine's answer, never spliced locally.
pub proof fn lemma_delete_snapshots_flow(s: AppView, repo: RepoView, ids: Seq<Seq<char>>)
    requires
        s.session.repository == Option::Some(repo),
        spec_ids_cached(s.session, ids),
    ensures
        ({
            let step1 = spec_handle(s, EventView::RequestDeleteSnapshots(ids));
            let step2 = spec_handle(step1.state, EventView::SnapshotsDeleted(repo.path));
            &&& step1.state == s
            &&& step1.effects == seq![
                EffectView::SpawnTask(
                    CallView::DeleteSnapshots {
                        path: repo.path,
                        password: s.session.password,
                        ids,
                    },
                ),
            ]
            &&& step2.state == s
            &&& step2.effects == seq![
                EffectView::SpawnTask(
                    CallView::ListSnapshots { path: repo.path, password: s.session.password },
                ),
            ]
        }),
{
}

} // verus!
