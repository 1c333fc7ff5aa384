//! The dispatcher: which action answers a launcher state.
//!
//! Every state has exactly one action. The action itself is carried out
//! elsewhere; what is decided here is which one it is, what it is given, and
//! whether a download takes up a file that an earlier attempt left behind.

use vstd::prelude::*;
use crate::state::{copy_fonts, FontId, LauncherState, LauncherStateView, VersionDiff, VersionDiffView};

verus! {

/// What an action is able to do.
#[derive(Clone, Copy, Debug, PartialEq, Eq, Structural)]
pub enum Capability {
    Launch,
    InstallRuntime,
    CreatePrefix,
    InstallRedistributable,
    InstallFonts,
    DownloadOrUpdateGame,
}

/// An action, with what it works on.
#[derive(Debug, PartialEq, Eq)]
pub enum Action {
    /// Start the game.
    Launch,
    /// Install the compatibility runtime.
    InstallRuntime,
    /// Create the prefix.
    CreatePrefix,
    /// Install the redistributable.
    InstallRedistributable,
    /// Install these fonts.
    InstallFonts(Vec<FontId>),
    /// Download what this difference describes.
    DownloadOrUpdateGame(VersionDiff),
}

/// What an [`Action`] stands for.
pub enum ActionView {
    Launch,
    InstallRuntime,
    CreatePrefix,
    InstallRedistributable,
    InstallFonts(Seq<FontId>),
    DownloadOrUpdateGame(VersionDiffView),
}

impl ActionView {
    /// What the action is able to do.
    pub open spec fn capability(self) -> Capability {
        match self {
            ActionView::Launch => Capability::Launch,
            ActionView::InstallRuntime => Capability::InstallRuntime,
            ActionView::CreatePrefix => Capability::CreatePrefix,
            ActionView::InstallRedistributable => Capability::InstallRedistributable,
            ActionView::InstallFonts(_) => Capability::InstallFonts,
            ActionView::DownloadOrUpdateGame(_) => Capability::DownloadOrUpdateGame,
        }
    }
}

impl View for Action {
    type V = ActionView;

    open spec fn view(&self) -> ActionView {
        match self {
            Action::Launch => ActionView::Launch,
            Action::InstallRuntime => ActionView::InstallRuntime,
            Action::CreatePrefix => ActionView::CreatePrefix,
            Action::InstallRedistributable => ActionView::InstallRedistributable,
            Action::InstallFonts(fonts) => ActionView::InstallFonts(fonts@),
            Action::DownloadOrUpdateGame(diff) => ActionView::DownloadOrUpdateGame(diff@),
        }
    }
}

impl DeepView for Action {
    type V = ActionView;

    open spec fn deep_view(&self) -> ActionView {
        self@
    }
}

impl Action {
    /// What the action is able to do.
    pub fn capability(&self) -> (capability: Capability)
        ensures
            capability == self@.capability(),
    {
        match self {
            Action::Launch => Capability::Launch,
            Action::InstallRuntime => Capability::InstallRuntime,
            Action::CreatePrefix => Capability::CreatePrefix,
            Action::InstallRedistributable => Capability::InstallRedistributable,
            Action::InstallFonts(_) => Capability::InstallFonts,
            Action::DownloadOrUpdateGame(_) => Capability::DownloadOrUpdateGame,
        }
    }
}

/// The action of each state. The fonts of the state are the fonts to
/// install, and the difference of the state is the one to download, whether
/// the game is installed or not.
pub open spec fn dispatch_spec(state: LauncherStateView) -> ActionView {
    match state {
        LauncherStateView::Launch => ActionView::Launch,
        LauncherStateView::WineNotInstalled => ActionView::InstallRuntime,
        LauncherStateView::PrefixNotExists => ActionView::CreatePrefix,
        LauncherStateView::Mfc140NotInstalled => ActionView::InstallRedistributable,
        LauncherStateView::CorefontsNotInstalled(fonts) => ActionView::InstallFonts(fonts),
        LauncherStateView::GameUpdateAvailable(diff) => ActionView::DownloadOrUpdateGame(diff),
        LauncherStateView::GameNotInstalled(diff) => ActionView::DownloadOrUpdateGame(diff),
    }
}

/// The action that answers `state`.
pub fn dispatch(state: &LauncherState) -> (action: Action)
    ensures
        action@ == dispatch_spec(state@),
{
    match state {
        LauncherState::Launch => Action::Launch,
        LauncherState::WineNotInstalled => Action::InstallRuntime,
        LauncherState::PrefixNotExists => Action::CreatePrefix,
        LauncherState::Mfc140NotInstalled => Action::InstallRedistributable,
        LauncherState::CorefontsNotInstalled(fonts) => Action::InstallFonts(copy_fonts(fonts)),
        LauncherState::GameUpdateAvailable(diff) => Action::DownloadOrUpdateGame(diff.clone()),
        LauncherState::GameNotInstalled(diff) => Action::DownloadOrUpdateGame(diff.clone()),
    }
}

/// Two states are answered by actions of the same capability exactly when
/// they name the same stage in the order of dependencies: each stage has an
/// action of its own, and only starting the game answers `Launch`.
pub proof fn lemma_one_capability_for_each_stage(a: LauncherStateView, b: LauncherStateView)
    ensures
        dispatch_spec(a).capability() == dispatch_spec(b).capability() <==> a.rank() == b.rank(),
        dispatch_spec(a) is Launch <==> a is Launch,
{
}

/// How a download begins.
#[derive(Clone, Copy, Debug, PartialEq, Eq, Structural)]
pub enum Transfer {
    /// It goes on from the file that an earlier attempt left behind.
    Resume,
    /// It starts from nothing.
    Restart,
}

/// A download resumes when its difference names a file and a file of that
/// name lies in the temporary directory.
pub open spec fn transfer_spec(diff: VersionDiffView, partial_present: bool) -> Transfer {
    if diff.file_name is Some && partial_present {
        Transfer::Resume
    } else {
        Transfer::Restart
    }
}

/// How the download of `diff` begins. `partial_present` says whether a file
/// with the name that `diff` gives lies in the temporary directory; it is
/// not looked at when `diff` gives no name.
pub fn transfer(diff: &VersionDiff, partial_present: bool) -> (mode: Transfer)
    ensures
        mode == transfer_spec(diff@, partial_present),
{
    match &diff.file_name {
        Some(_) => if partial_present {
            Transfer::Resume
        } else {
            Transfer::Restart
        },
        None => Transfer::Restart,
    }
}

} // verus!
