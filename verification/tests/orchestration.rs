//! End-to-end dispatcher tests: whole workflows driven through
//! `App::handle`, checking the states reached and the effects emitted.

use stellarshot::dialog::DialogPage;
use stellarshot::dispatcher::App;
use stellarshot::events::{Effect, EngineCall, Event, RepositoryAction};
use stellarshot::types::{
    AppTheme, ContextPage, Repository, RepositoryStatus, Snapshot, StellarshotConfig,
};

fn fresh_app() -> App {
    App::init(StellarshotConfig { app_theme: AppTheme::System, repositories: vec![] })
}

fn repo(name: &str, path: &str) -> Repository {
    Repository { name: name.to_string(), path: path.to_string() }
}

fn snap(id: &str) -> Snapshot {
    Snapshot { id: id.to_string(), timestamp: 7, paths: vec!["/etc".to_string()] }
}

/// The last persisted configuration among the effects, if any.
fn last_save(effects: &[Effect]) -> Option<&StellarshotConfig> {
    effects
        .iter()
        .filter_map(|e| match e {
            Effect::PersistConfig(c) => Some(c),
            Effect::SpawnTask(_) => None,
        })
        .last()
}

fn count_saves(effects: &[Effect]) -> usize {
    effects
        .iter()
        .filter(|e| matches!(e, Effect::PersistConfig(_)))
        .count()
}

#[test]
fn init_seeds_registry_from_config() {
    let app = App::init(StellarshotConfig {
        app_theme: AppTheme::Dark,
        repositories: vec![repo("a", "/r/a"), repo("b", "/r/b")],
    });
    assert_eq!(app.registry.entries.len(), 2);
    assert!(matches!(app.registry.entries[0].status, RepositoryStatus::Ready));
    assert!(matches!(app.registry.entries[1].status, RepositoryStatus::Ready));
    assert!(app.session.repository.is_none());
    assert!(app.dialogs.is_empty());
    assert!(matches!(app.app_theme, AppTheme::Dark));
}

/// The full creation-and-unlock scenario: the user creates a repository at
/// `/data/backup1` with password `"hunter2"`; the registry first shows one
/// pending entry; the engine's success turns it ready and the configuration
/// was persisted with exactly that one repository; selecting it and supplying
/// the password again opens a session whose snapshot list stays unknown until
/// the fetch resolves to an empty list.
#[test]
fn scenario_create_unlock_and_empty_fetch() {
    let mut app = fresh_app();

    let effects = app.handle(Event::OpenCreateRepositoryDialog("/data/backup1".to_string()));
    assert!(effects.is_empty());
    let effects = app.handle(Event::DialogUpdate(DialogPage::CreateRepository(
        "/data/backup1".to_string(),
        "hunter2".to_string(),
    )));
    assert!(effects.is_empty());

    let effects = app.handle(Event::DialogComplete);
    assert!(app.dialogs.is_empty());
    assert_eq!(app.registry.entries.len(), 1);
    assert_eq!(app.registry.entries[0].repository.name, "backup1");
    assert_eq!(app.registry.entries[0].repository.path, "/data/backup1");
    assert!(matches!(app.registry.entries[0].status, RepositoryStatus::Pending));
    assert_eq!(effects.len(), 2);
    assert_eq!(count_saves(&effects), 1);
    let saved = last_save(&effects).unwrap();
    assert_eq!(saved.repositories.len(), 1);
    assert_eq!(saved.repositories[0].name, "backup1");
    assert_eq!(saved.repositories[0].path, "/data/backup1");
    match &effects[1] {
        Effect::SpawnTask(EngineCall::Init { path, password }) => {
            assert_eq!(path.as_str(), "/data/backup1");
            assert_eq!(password.as_str(), "hunter2");
        }
        _ => panic!("expected an engine init task"),
    }

    let effects = app.handle(Event::Repository(RepositoryAction::Created(repo(
        "backup1",
        "/data/backup1",
    ))));
    assert!(effects.is_empty());
    assert_eq!(app.registry.entries.len(), 1);
    assert!(matches!(app.registry.entries[0].status, RepositoryStatus::Ready));

    let effects = app.handle(Event::SelectRepository("/data/backup1".to_string()));
    assert!(effects.is_empty());
    assert_eq!(app.registry.active.as_deref(), Some("/data/backup1"));
    assert!(matches!(
        app.dialogs.front(),
        Some(DialogPage::Password(_, _))
    ));

    let effects = app.handle(Event::DialogUpdate(DialogPage::Password(
        repo("backup1", "/data/backup1"),
        "hunter2".to_string(),
    )));
    assert!(effects.is_empty());
    let effects = app.handle(Event::DialogComplete);
    assert_eq!(app.session.repository.as_ref().unwrap().path, "/data/backup1");
    assert_eq!(app.session.password, "hunter2");
    assert!(app.session.snapshots.is_none(), "list is unknown until the fetch resolves");
    assert_eq!(effects.len(), 1);
    match &effects[0] {
        Effect::SpawnTask(EngineCall::ListSnapshots { path, password }) => {
            assert_eq!(path.as_str(), "/data/backup1");
            assert_eq!(password.as_str(), "hunter2");
        }
        _ => panic!("expected a snapshot fetch task"),
    }

    let effects = app.handle(Event::SnapshotsFetched("/data/backup1".to_string(), vec![]));
    assert!(effects.is_empty());
    assert_eq!(app.session.snapshots.as_ref().unwrap().len(), 0, "confirmed empty");
}

#[test]
fn creating_duplicate_path_is_refused_with_notification() {
    let mut app = App::init(StellarshotConfig {
        app_theme: AppTheme::System,
        repositories: vec![repo("a", "/r/a")],
    });
    let effects = app.handle(Event::Repository(RepositoryAction::Init(
        "/r/a".to_string(),
        "pw".to_string(),
    )));
    assert!(effects.is_empty(), "no task and no save for a refused add");
    assert_eq!(app.registry.entries.len(), 1);
    assert!(app.notification.is_some());
}

#[test]
fn engine_failure_marks_entry_failed_without_retry() {
    let mut app = fresh_app();
    let effects = app.handle(Event::Repository(RepositoryAction::Init(
        "/r/a".to_string(),
        "pw".to_string(),
    )));
    assert_eq!(effects.len(), 2);
    let effects = app.handle(Event::Repository(RepositoryAction::Error(
        "/r/a".to_string(),
        "disk full".to_string(),
    )));
    assert!(effects.is_empty(), "a failure is terminal: nothing is retried");
    match &app.registry.entries[0].status {
        RepositoryStatus::Failed(m) => assert_eq!(m.as_str(), "disk full"),
        _ => panic!("entry must be marked failed"),
    }
}

#[test]
fn stale_fetch_result_is_dropped_by_dispatcher() {
    let mut app = fresh_app();
    app.handle(Event::Repository(RepositoryAction::Init("/r/a".to_string(), "pa".to_string())));
    app.handle(Event::Repository(RepositoryAction::Init("/r/b".to_string(), "pb".to_string())));
    // Unlock A, then switch to B before A's fetch resolves.
    app.handle(Event::SelectRepository("/r/a".to_string()));
    app.handle(Event::DialogComplete);
    app.handle(Event::SelectRepository("/r/b".to_string()));
    app.handle(Event::DialogComplete);
    assert_eq!(app.session.repository.as_ref().unwrap().path, "/r/b");
    assert!(app.session.snapshots.is_none());
    // A's fetch resolves late: it must not be applied to B's session.
    let effects = app.handle(Event::SnapshotsFetched("/r/a".to_string(), vec![snap("s1")]));
    assert!(effects.is_empty());
    assert!(app.session.snapshots.is_none(), "B's cache stays whatever B's state dictates");
    // B's own result is applied.
    app.handle(Event::SnapshotsFetched("/r/b".to_string(), vec![snap("s9")]));
    assert_eq!(app.session.snapshots.as_ref().unwrap().len(), 1);
    assert_eq!(app.session.snapshots.as_ref().unwrap()[0].id, "s9");
}

#[test]
fn deleting_snapshots_issues_one_call_then_one_refetch() {
    let mut app = fresh_app();
    app.handle(Event::Repository(RepositoryAction::Init("/r/a".to_string(), "pw".to_string())));
    app.handle(Event::SelectRepository("/r/a".to_string()));
    app.handle(Event::DialogUpdate(DialogPage::Password(
        repo("a", "/r/a"),
        "pw".to_string(),
    )));
    app.handle(Event::DialogComplete);
    app.handle(Event::SnapshotsFetched(
        "/r/a".to_string(),
        vec![snap("s1"), snap("s2"), snap("s3")],
    ));

    let effects = app.handle(Event::RequestDeleteSnapshots(vec![
        "s1".to_string(),
        "s2".to_string(),
    ]));
    assert_eq!(effects.len(), 1, "exactly one engine call");
    match &effects[0] {
        Effect::SpawnTask(EngineCall::DeleteSnapshots { path, password, ids }) => {
            assert_eq!(path.as_str(), "/r/a");
            assert_eq!(password.as_str(), "pw");
            assert_eq!(ids, &vec!["s1".to_string(), "s2".to_string()]);
        }
        _ => panic!("expected a delete task"),
    }
    // The cache is not spliced locally.
    assert_eq!(app.session.snapshots.as_ref().unwrap().len(), 3);

    let effects = app.handle(Event::SnapshotsDeleted("/r/a".to_string()));
    assert_eq!(effects.len(), 1, "exactly one re-fetch");
    match &effects[0] {
        Effect::SpawnTask(EngineCall::ListSnapshots { path, password }) => {
            assert_eq!(path.as_str(), "/r/a");
            assert_eq!(password.as_str(), "pw");
        }
        _ => panic!("expected a fetch task"),
    }
    assert_eq!(app.session.snapshots.as_ref().unwrap().len(), 3);
}

#[test]
fn deleting_uncached_ids_is_refused() {
    let mut app = fresh_app();
    app.handle(Event::Repository(RepositoryAction::Init("/r/a".to_string(), "pw".to_string())));
    app.handle(Event::SelectRepository("/r/a".to_string()));
    app.handle(Event::DialogComplete);
    app.handle(Event::SnapshotsFetched("/r/a".to_string(), vec![snap("s1")]));
    let effects = app.handle(Event::RequestDeleteSnapshots(vec!["stale".to_string()]));
    assert!(effects.is_empty(), "ids not in the current cache are never sent");
    let effects = app.handle(Event::RequestDeleteSnapshots(vec!["s1".to_string()]));
    assert_eq!(effects.len(), 1);
}

#[test]
fn removing_repository_persists_new_list_and_closes_session() {
    let mut app = App::init(StellarshotConfig {
        app_theme: AppTheme::System,
        repositories: vec![repo("a", "/r/a"), repo("b", "/r/b")],
    });
    app.handle(Event::SelectRepository("/r/a".to_string()));
    app.handle(Event::DialogComplete);
    assert!(app.session.repository.is_some());

    let effects = app.handle(Event::RequestDeleteRepository);
    assert!(effects.is_empty());
    let effects = app.handle(Event::DialogComplete);
    assert_eq!(effects.len(), 1);
    match &effects[0] {
        Effect::SpawnTask(EngineCall::RemoveRepository { path }) => {
            assert_eq!(path.as_str(), "/r/a");
        }
        _ => panic!("expected a removal task"),
    }
    // Registry and session change only once the storage is gone.
    assert_eq!(app.registry.entries.len(), 2);

    let effects = app.handle(Event::RepositoryRemoved("/r/a".to_string()));
    assert_eq!(count_saves(&effects), 1);
    let saved = last_save(&effects).unwrap();
    assert_eq!(saved.repositories.len(), 1);
    assert_eq!(saved.repositories[0].path, "/r/b");
    assert_eq!(app.registry.entries.len(), 1);
    assert!(app.session.repository.is_none(), "session on the removed repository is closed");
}

#[test]
fn removal_failure_changes_nothing_but_notifies() {
    let mut app = App::init(StellarshotConfig {
        app_theme: AppTheme::System,
        repositories: vec![repo("a", "/r/a")],
    });
    let effects = app.handle(Event::RepositoryRemoveFailed(
        "/r/a".to_string(),
        "permission denied".to_string(),
    ));
    assert!(effects.is_empty());
    assert_eq!(app.registry.entries.len(), 1);
    assert_eq!(app.notification.as_deref(), Some("permission denied"));
}

/// Persistence mirrors the registry over a whole sequence of structural
/// changes: after each add or remove, the last saved list equals the
/// in-memory repository list.
#[test]
fn every_structural_change_persists_current_list() {
    let mut app = fresh_app();
    let mut last: Option<StellarshotConfig> = None;
    let script = [
        Event::Repository(RepositoryAction::Init("/r/a".to_string(), "p".to_string())),
        Event::Repository(RepositoryAction::Init("/r/b".to_string(), "p".to_string())),
        Event::Repository(RepositoryAction::Init("/r/a".to_string(), "p".to_string())),
        Event::RepositoryRemoved("/r/a".to_string()),
        Event::Repository(RepositoryAction::Init("/r/c".to_string(), "p".to_string())),
        Event::RepositoryRemoved("/r/missing".to_string()),
    ];
    for event in script {
        let effects = app.handle(event);
        if let Some(c) = last_save(&effects) {
            last = Some(StellarshotConfig {
                app_theme: c.app_theme,
                repositories: c.repositories.clone(),
            });
        }
        let persisted: Vec<&str> =
            last.as_ref().map(|c| c.repositories.iter().map(|r| r.path.as_str()).collect()).unwrap_or_default();
        let in_memory: Vec<&str> =
            app.registry.entries.iter().map(|e| e.repository.path.as_str()).collect();
        assert_eq!(persisted, in_memory);
    }
}

#[test]
fn snapshot_dialog_spawns_backup_for_active_repository() {
    let mut app = fresh_app();
    app.handle(Event::Repository(RepositoryAction::Init("/r/a".to_string(), "pw".to_string())));
    app.handle(Event::SelectRepository("/r/a".to_string()));
    app.handle(Event::DialogUpdate(DialogPage::Password(
        repo("a", "/r/a"),
        "pw".to_string(),
    )));
    app.handle(Event::DialogComplete);

    app.handle(Event::OpenCreateSnapshotDialog(vec![
        "/etc".to_string(),
        "/home".to_string(),
    ]));
    let effects = app.handle(Event::DialogComplete);
    assert_eq!(effects.len(), 1);
    match &effects[0] {
        Effect::SpawnTask(EngineCall::Backup { path, password, sources }) => {
            assert_eq!(path.as_str(), "/r/a");
            assert_eq!(password.as_str(), "pw");
            assert_eq!(sources, &vec!["/etc".to_string(), "/home".to_string()]);
        }
        _ => panic!("expected a backup task"),
    }

    // Success for the active repository triggers exactly one re-fetch.
    let effects = app.handle(Event::SnapshotCreated("/r/a".to_string()));
    assert_eq!(effects.len(), 1);
    assert!(matches!(
        &effects[0],
        Effect::SpawnTask(EngineCall::ListSnapshots { .. })
    ));
}

#[test]
fn snapshot_dialog_without_session_does_nothing() {
    let mut app = fresh_app();
    app.handle(Event::OpenCreateSnapshotDialog(vec!["/etc".to_string()]));
    let effects = app.handle(Event::DialogComplete);
    assert!(effects.is_empty());
    assert!(app.dialogs.is_empty());
}

#[test]
fn selecting_unlocked_repository_skips_password_dialog() {
    let mut app = fresh_app();
    app.handle(Event::Repository(RepositoryAction::Init("/r/a".to_string(), "pw".to_string())));
    app.handle(Event::SelectRepository("/r/a".to_string()));
    app.handle(Event::DialogComplete);
    assert!(app.dialogs.is_empty());
    // Selecting the repository that is already unlocked asks for no password.
    app.handle(Event::SelectRepository("/r/a".to_string()));
    assert!(app.dialogs.is_empty());
}

#[test]
fn fetch_failure_keeps_cache_unknown_and_notifies() {
    let mut app = fresh_app();
    app.handle(Event::Repository(RepositoryAction::Init("/r/a".to_string(), "pw".to_string())));
    app.handle(Event::SelectRepository("/r/a".to_string()));
    app.handle(Event::DialogComplete);
    let effects = app.handle(Event::SnapshotsFetchFailed(
        "/r/a".to_string(),
        "wrong password".to_string(),
    ));
    assert!(effects.is_empty());
    assert!(app.session.snapshots.is_none());
    assert_eq!(app.notification.as_deref(), Some("wrong password"));
}

#[test]
fn theme_change_is_persisted() {
    let mut app = fresh_app();
    let effects = app.handle(Event::SetTheme(AppTheme::Light));
    assert!(matches!(app.app_theme, AppTheme::Light));
    assert_eq!(count_saves(&effects), 1);
    assert!(matches!(last_save(&effects).unwrap().app_theme, AppTheme::Light));
}

#[test]
fn completing_empty_dialog_stack_is_noop() {
    let mut app = fresh_app();
    let effects = app.handle(Event::DialogComplete);
    assert!(effects.is_empty());
    assert!(app.dialogs.is_empty());
}

#[test]
fn selecting_unknown_path_does_nothing() {
    let mut app = fresh_app();
    let effects = app.handle(Event::SelectRepository("/nowhere".to_string()));
    assert!(effects.is_empty());
    assert!(app.dialogs.is_empty());
    assert_eq!(app.registry.active, None);
}

#[test]
fn creation_result_for_unknown_path_changes_nothing() {
    let mut app = fresh_app();
    let effects = app.handle(Event::Repository(RepositoryAction::Created(repo(
        "ghost",
        "/r/ghost",
    ))));
    assert!(effects.is_empty());
    assert!(app.registry.entries.is_empty());
}

#[test]
fn stale_refetch_trigger_is_dropped() {
    let mut app = fresh_app();
    app.handle(Event::Repository(RepositoryAction::Init("/r/a".to_string(), "pw".to_string())));
    app.handle(Event::SelectRepository("/r/a".to_string()));
    app.handle(Event::DialogComplete);
    // A deletion result for a repository that is no longer active spawns
    // nothing.
    let effects = app.handle(Event::SnapshotsDeleted("/r/other".to_string()));
    assert!(effects.is_empty());
}

#[test]
fn context_page_toggles() {
    let mut app = fresh_app();
    assert!(!app.show_context);
    app.handle(Event::ToggleContextPage(ContextPage::About));
    assert!(app.show_context);
    assert!(matches!(app.context_page, ContextPage::About));
    app.handle(Event::ToggleContextPage(ContextPage::About));
    assert!(!app.show_context);
    app.handle(Event::ToggleContextPage(ContextPage::Settings));
    assert!(app.show_context);
    assert!(matches!(app.context_page, ContextPage::Settings));
}
