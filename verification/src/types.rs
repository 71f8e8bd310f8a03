//! Core data model: repositories, their lifecycle status, snapshots, and the
//! durable configuration.

use vstd::prelude::*;

verus! {

/// A named, path-identified encrypted backup store.  Identity is the `path`:
/// two repositories are the same entry exactly when their paths agree.
pub struct Repository {
    pub name: String,
    pub path: String,
}

/// Mathematical value of a [`Repository`].
#[verifier::ext_equal]
pub struct RepoView {
    pub name: Seq<char>,
    pub path: Seq<char>,
}

impl View for Repository {
    type V = RepoView;

    open spec fn view(&self) -> RepoView {
        RepoView { name: self.name@, path: self.path@ }
    }
}

impl DeepView for Repository {
    type V = RepoView;

    open spec fn deep_view(&self) -> RepoView {
        self@
    }
}

impl Clone for Repository {
    fn clone(&self) -> (r: Self)
        ensures
            r == *self,
    {
        Repository { name: self.name.clone(), path: self.path.clone() }
    }
}

/// Lifecycle status of a registry entry: `Pending` while the engine is still
/// initialising the store, `Ready` once initialisation was confirmed, and
/// `Failed` with the engine's message when it was not.
pub enum RepositoryStatus {
    Pending,
    Ready,
    Failed(String),
}

/// Mathematical value of a [`RepositoryStatus`].
#[verifier::ext_equal]
pub enum StatusView {
    Pending,
    Ready,
    Failed(Seq<char>),
}

impl View for RepositoryStatus {
    type V = StatusView;

    open spec fn view(&self) -> StatusView {
        match self {
            RepositoryStatus::Pending => StatusView::Pending,
            RepositoryStatus::Ready => StatusView::Ready,
            RepositoryStatus::Failed(m) => StatusView::Failed(m@),
        }
    }
}

impl DeepView for RepositoryStatus {
    type V = StatusView;

    open spec fn deep_view(&self) -> StatusView {
        self@
    }
}

impl Clone for RepositoryStatus {
    fn clone(&self) -> (r: Self)
        ensures
            r == *self,
    {
        match self {
            RepositoryStatus::Pending => RepositoryStatus::Pending,
            RepositoryStatus::Ready => RepositoryStatus::Ready,
            RepositoryStatus::Failed(m) => RepositoryStatus::Failed(m.clone()),
        }
    }
}

/// An immutable, engine-owned point-in-time backup record.  The core only
/// caches these for display and for targeting deletions.
pub struct Snapshot {
    pub id: String,
    pub timestamp: i64,
    pub paths: Vec<String>,
}

/// Mathematical value of a [`Snapshot`].
#[verifier::ext_equal]
pub struct SnapView {
    pub id: Seq<char>,
    pub timestamp: i64,
    pub paths: Seq<Seq<char>>,
}

impl View for Snapshot {
    type V = SnapView;

    open spec fn view(&self) -> SnapView {
        SnapView { id: self.id@, timestamp: self.timestamp, paths: self.paths.deep_view() }
    }
}

impl DeepView for Snapshot {
    type V = SnapView;

    open spec fn deep_view(&self) -> SnapView {
        self@
    }
}

impl Clone for Snapshot {
    fn clone(&self) -> (r: Self)
        ensures
            r@ == self@,
    {
        Snapshot { id: self.id.clone(), timestamp: self.timestamp, paths: self.paths.clone() }
    }
}

/// Colour scheme preference kept in the durable configuration.
#[derive(Clone, Copy, Debug, PartialEq, Eq, Structural)]
pub enum AppTheme {
    Dark,
    Light,
    System,
}

/// The durable configuration: the list of known repositories plus the user's
/// preferences.  It is loaded once at startup to seed the registry and written
/// back after every structural registry change.
pub struct StellarshotConfig {
    pub app_theme: AppTheme,
    pub repositories: Vec<Repository>,
}

/// Mathematical value of a [`StellarshotConfig`].
#[verifier::ext_equal]
pub struct ConfigView {
    pub app_theme: AppTheme,
    pub repositories: Seq<RepoView>,
}

impl View for StellarshotConfig {
    type V = ConfigView;

    open spec fn view(&self) -> ConfigView {
        ConfigView { app_theme: self.app_theme, repositories: self.repositories.deep_view() }
    }
}

impl DeepView for StellarshotConfig {
    type V = ConfigView;

    open spec fn deep_view(&self) -> ConfigView {
        self@
    }
}

/// The configuration used when nothing was stored yet: system theme, no
/// repositories.
pub open spec fn spec_default_config() -> ConfigView {
    ConfigView { app_theme: AppTheme::System, repositories: Seq::empty() }
}

impl Default for StellarshotConfig {
    fn default() -> (r: Self)
        ensures
            r@ == spec_default_config(),
    {
        let r = StellarshotConfig { app_theme: AppTheme::System, repositories: Vec::new() };
        proof {
            assert(r@ =~= spec_default_config());
        }
        r
    }
}

impl StellarshotConfig {
    /// The configuration the process starts from: whatever the durable store
    /// handed back, or the default when nothing could be loaded.
    pub fn config(loaded: Option<StellarshotConfig>) -> (r: StellarshotConfig)
        ensures
            r@ == match loaded {
                Option::Some(c) => c@,
                Option::None => spec_default_config(),
            },
    {
        match loaded {
            Option::Some(c) => c,
            Option::None => StellarshotConfig::default(),
        }
    }
}

/// Which page of the context drawer is requested.
#[derive(Clone, Copy, Debug, PartialEq, Eq, Structural)]
pub enum ContextPage {
    About,
    Settings,
}

impl ContextPage {
    /// The heading under which the page is shown.
    pub open spec fn spec_title(self) -> Seq<char> {
        match self {
            ContextPage::About => "About"@,
            ContextPage::Settings => "Settings"@,
        }
    }

    pub fn title(&self) -> (r: String)
        ensures
            r@ == self.spec_title(),
    {
        match self {
            ContextPage::About => "About".to_owned(),
            ContextPage::Settings => "Settings".to_owned(),
        }
    }
}

/// A user intention resolved from a menu entry or a key binding.  The
/// presentation layer turns one of these into the event it stands for.
#[derive(Clone, Copy, Debug, PartialEq, Eq, Structural)]
pub enum Action {
    About,
    CreateRepository,
    CreateSnapshot,
    DeleteRepository,
    Settings,
    WindowClose,
    WindowNew,
}

/// The display name of a repository: the text after the final `/` of its
/// path, or the whole path when it has no separator.
pub open spec fn spec_name_of_path(path: Seq<char>) -> Seq<char>
    decreases path.len(),
{
    if path.len() == 0 {
        path
    } else if path.last() == '/' {
        Seq::empty()
    } else {
        spec_name_of_path(path.drop_last()).push(path.last())
    }
}

/// When nothing at or after position `i` is a separator and position `i - 1`
/// (if any) is one, the display name is exactly the suffix from `i`.
proof fn lemma_name_is_suffix(path: Seq<char>, i: int)
    requires
        0 <= i <= path.len(),
        i > 0 ==> path[i - 1] == '/',
        forall|k: int| i <= k < path.len() ==> path[k] != '/',
    ensures
        spec_name_of_path(path) == path.subrange(i, path.len() as int),
    decreases path.len(),
{
    if path.len() == 0 {
        assert(spec_name_of_path(path) =~= path.subrange(0, 0));
    } else if i == path.len() {
        assert(path.last() == '/');
        assert(spec_name_of_path(path) =~= path.subrange(i, path.len() as int));
    } else {
        assert(path.last() != '/');
        lemma_name_is_suffix(path.drop_last(), i);
        assert(path.drop_last().subrange(i, path.len() - 1) =~= path.subrange(
            i,
            path.len() - 1,
        ));
        assert(spec_name_of_path(path) =~= path.subrange(i, path.len() as int));
    }
}

/// The display name of a repository stored at `path`.
pub fn name_of_path(path: &str) -> (r: String)
    ensures
        r@ == spec_name_of_path(path@),
{
    let n = path.unicode_len();
    let mut i = n;
    while i > 0 && path.get_char(i - 1) != '/'
        invariant
            0 <= i <= n,
            n == path@.len(),
            forall|k: int| i <= k < path@.len() ==> path@[k] != '/',
        decreases i,
    {
        i = i - 1;
    }
    proof {
        lemma_name_is_suffix(path@, i as int);
    }
    path.substring_char(i, n).to_owned()
}

} // verus!
