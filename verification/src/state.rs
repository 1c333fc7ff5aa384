//! The data that the decisions are made of: versions, the difference between
//! the installed game and the latest one, fonts, and the launcher state.

use vstd::prelude::*;

verus! {

/// A game version.
#[derive(Clone, Copy, Debug, PartialEq, Eq, Structural)]
pub struct Version {
    pub major: u8,
    pub minor: u8,
    pub patch: u8,
}

/// What a difference between two versions asks for.
#[derive(Clone, Copy, Debug, PartialEq, Eq, Structural)]
pub enum DiffKind {
    /// The installed version is the latest one: nothing to fetch.
    UpToDate,
    /// An older version is installed.
    Update,
    /// No version is installed.
    FreshInstall,
}

/// The difference between the installed game and the latest version.
#[derive(Debug, PartialEq, Eq)]
pub struct VersionDiff {
    /// The installed version, if the game is installed.
    pub installed: Option<Version>,
    /// The latest version that the remote side offers.
    pub latest: Version,
    /// The name under which the download is kept while it is incomplete.
    pub file_name: Option<String>,
}

/// What a [`VersionDiff`] stands for.
pub struct VersionDiffView {
    pub installed: Option<Version>,
    pub latest: Version,
    pub file_name: Option<Seq<char>>,
}

impl VersionDiffView {
    /// A difference with no installed version is a fresh install; one whose
    /// installed version is the latest is empty; any other is an update.
    pub open spec fn kind(self) -> DiffKind {
        match self.installed {
            None => DiffKind::FreshInstall,
            Some(v) => if v == self.latest {
                DiffKind::UpToDate
            } else {
                DiffKind::Update
            },
        }
    }

    /// Whether the difference holds nothing to fetch.
    pub open spec fn is_empty(self) -> bool {
        self.kind() == DiffKind::UpToDate
    }
}

impl View for VersionDiff {
    type V = VersionDiffView;

    open spec fn view(&self) -> VersionDiffView {
        VersionDiffView {
            installed: self.installed,
            latest: self.latest,
            file_name: self.file_name.deep_view(),
        }
    }
}

impl DeepView for VersionDiff {
    type V = VersionDiffView;

    open spec fn deep_view(&self) -> VersionDiffView {
        self@
    }
}

impl Clone for VersionDiff {
    fn clone(&self) -> (copy: Self)
        ensures
            copy@ == self@,
    {
        VersionDiff { installed: self.installed, latest: self.latest, file_name: self.file_name() }
    }
}

impl VersionDiff {
    /// What the difference asks for.
    pub fn kind(&self) -> (k: DiffKind)
        ensures
            k == self@.kind(),
    {
        match self.installed {
            None => DiffKind::FreshInstall,
            Some(v) => if v == self.latest {
                DiffKind::UpToDate
            } else {
                DiffKind::Update
            },
        }
    }

    /// Whether the difference holds nothing to fetch.
    pub fn is_empty(&self) -> (empty: bool)
        ensures
            empty == self@.is_empty(),
    {
        match self.kind() {
            DiffKind::UpToDate => true,
            _ => false,
        }
    }

    /// The name under which the download is kept while it is incomplete.
    pub fn file_name(&self) -> (name: Option<String>)
        ensures
            name.deep_view() == self@.file_name,
    {
        match &self.file_name {
            Some(name) => Some(name.clone()),
            None => None,
        }
    }
}

/// A font that the game needs.
#[derive(Clone, Copy, Debug, PartialEq, Eq, Structural)]
pub struct FontId(pub u16);

/// Whether `font` is among `fonts`.
pub(crate) fn holds_font(fonts: &Vec<FontId>, font: FontId) -> (found: bool)
    ensures
        found == fonts@.contains(font),
{
    let mut i: usize = 0;
    while i < fonts.len()
        invariant
            i <= fonts.len(),
            forall|j: int| 0 <= j < i ==> fonts@[j] != font,
        decreases fonts.len() - i,
    {
        if fonts[i] == font {
            return true;
        }
        i += 1;
    }
    false
}

/// A copy of `fonts`.
pub(crate) fn copy_fonts(fonts: &Vec<FontId>) -> (copy: Vec<FontId>)
    ensures
        copy@ == fonts@,
{
    let mut copy: Vec<FontId> = Vec::new();
    let mut i: usize = 0;
    while i < fonts.len()
        invariant
            i <= fonts.len(),
            copy@ == fonts@.take(i as int),
        decreases fonts.len() - i,
    {
        copy.push(fonts[i]);
        i += 1;
    }
    copy
}

/// What has to happen next before the game can start. The variants stand in
/// the order in which the prerequisites depend on each other: the runtime,
/// the prefix, the redistributable and the fonts, the game itself.
#[derive(Debug, PartialEq, Eq)]
pub enum LauncherState {
    /// Every prerequisite is met.
    Launch,
    /// The compatibility runtime is missing.
    WineNotInstalled,
    /// The prefix is missing.
    PrefixNotExists,
    /// The redistributable is missing.
    Mfc140NotInstalled,
    /// These fonts are missing.
    CorefontsNotInstalled(Vec<FontId>),
    /// An older version of the game is installed.
    GameUpdateAvailable(VersionDiff),
    /// The game is not installed.
    GameNotInstalled(VersionDiff),
}

/// What a [`LauncherState`] stands for.
pub enum LauncherStateView {
    Launch,
    WineNotInstalled,
    PrefixNotExists,
    Mfc140NotInstalled,
    CorefontsNotInstalled(Seq<FontId>),
    GameUpdateAvailable(VersionDiffView),
    GameNotInstalled(VersionDiffView),
}

impl LauncherStateView {
    /// The fonts of a state are a set with at least one member, and the
    /// difference of a state is of the kind that the state names.
    pub open spec fn wf(self) -> bool {
        match self {
            LauncherStateView::CorefontsNotInstalled(fonts) => fonts.len() > 0
                && fonts.no_duplicates(),
            LauncherStateView::GameUpdateAvailable(diff) => diff.kind() == DiffKind::Update,
            LauncherStateView::GameNotInstalled(diff) => diff.kind() == DiffKind::FreshInstall,
            _ => true,
        }
    }

    /// The place of the state in the order of dependencies: the number of
    /// stages that come before the one it names.
    pub open spec fn rank(self) -> nat {
        match self {
            LauncherStateView::WineNotInstalled => 0,
            LauncherStateView::PrefixNotExists => 1,
            LauncherStateView::Mfc140NotInstalled => 2,
            LauncherStateView::CorefontsNotInstalled(_) => 3,
            LauncherStateView::GameUpdateAvailable(_) => 4,
            LauncherStateView::GameNotInstalled(_) => 4,
            LauncherStateView::Launch => 5,
        }
    }
}

impl View for LauncherState {
    type V = LauncherStateView;

    open spec fn view(&self) -> LauncherStateView {
        match self {
            LauncherState::Launch => LauncherStateView::Launch,
            LauncherState::WineNotInstalled => LauncherStateView::WineNotInstalled,
            LauncherState::PrefixNotExists => LauncherStateView::PrefixNotExists,
            LauncherState::Mfc140NotInstalled => LauncherStateView::Mfc140NotInstalled,
            LauncherState::CorefontsNotInstalled(fonts) => LauncherStateView::CorefontsNotInstalled(
                fonts@,
            ),
            LauncherState::GameUpdateAvailable(diff) => LauncherStateView::GameUpdateAvailable(
                diff@,
            ),
            LauncherState::GameNotInstalled(diff) => LauncherStateView::GameNotInstalled(diff@),
        }
    }
}

impl DeepView for LauncherState {
    type V = LauncherStateView;

    open spec fn deep_view(&self) -> LauncherStateView {
        self@
    }
}

impl Clone for LauncherState {
    fn clone(&self) -> (copy: Self)
        ensures
            copy@ == self@,
    {
        match self {
            LauncherState::Launch => LauncherState::Launch,
            LauncherState::WineNotInstalled => LauncherState::WineNotInstalled,
            LauncherState::PrefixNotExists => LauncherState::PrefixNotExists,
            LauncherState::Mfc140NotInstalled => LauncherState::Mfc140NotInstalled,
            LauncherState::CorefontsNotInstalled(fonts) => LauncherState::CorefontsNotInstalled(
                copy_fonts(fonts),
            ),
            LauncherState::GameUpdateAvailable(diff) => LauncherState::GameUpdateAvailable(
                diff.clone(),
            ),
            LauncherState::GameNotInstalled(diff) => LauncherState::GameNotInstalled(diff.clone()),
        }
    }
}

/// The state that the difference alone asks for, once every other
/// prerequisite is met: with no difference known, or an empty one, the game
/// can start.
pub open spec fn game_state(diff: Option<VersionDiffView>) -> LauncherStateView {
    match diff {
        None => LauncherStateView::Launch,
        Some(d) => match d.kind() {
            DiffKind::UpToDate => LauncherStateView::Launch,
            DiffKind::Update => LauncherStateView::GameUpdateAvailable(d),
            DiffKind::FreshInstall => LauncherStateView::GameNotInstalled(d),
        },
    }
}

/// What a resolution is looking at, told to whoever shows progress.
#[derive(Clone, Copy, Debug, PartialEq, Eq, Structural)]
pub enum StateUpdating {
    /// The components of the installation are being checked.
    Components,
    /// The game version is being checked.
    Game,
}

} // verus!
