//! What the launcher says to its user: phrases named by the key under which
//! the wording for each language is kept, and free text that arrives from
//! outside.

use vstd::prelude::*;
use vstd::string::*;

verus! {

/// A message of the launcher, named by the key under which its wording is
/// kept for each language. The presentation layer looks the wording up.
#[derive(Clone, Copy, Debug, PartialEq, Eq, Structural)]
pub enum Phrase {
    DownloadingBackgroundPicture,
    BackgroundDownloadingFailed,
    UpdatingComponentsIndex,
    ComponentsIndexUpdated,
    ComponentsIndexSyncFailed,
    ComponentsIndexVerifyFailed,
    LoadingGameVersion,
    GameDiffFindingError,
    LoadingLauncherState,
    LoadingLauncherStateGame,
    LauncherStateUpdatingError,
    ConfigUpdateError,
    LauncherFolderOpeningError,
    GameFolderOpeningError,
    ConfigFileOpeningError,
    DebugFileOpeningError,
    ActionFailed,
    Launch,
    DownloadWine,
    CreatePrefix,
    Resume,
    Update,
    Download,
    Details,
    Close,
    Save,
}

impl Phrase {
    /// The key under which the wording of the phrase is kept.
    pub open spec fn key_text(self) -> Seq<char> {
        match self {
            Phrase::DownloadingBackgroundPicture => "downloading-background-picture"@,
            Phrase::BackgroundDownloadingFailed => "background-downloading-failed"@,
            Phrase::UpdatingComponentsIndex => "updating-components-index"@,
            Phrase::ComponentsIndexUpdated => "components-index-updated"@,
            Phrase::ComponentsIndexSyncFailed => "components-index-sync-failed"@,
            Phrase::ComponentsIndexVerifyFailed => "components-index-verify-failed"@,
            Phrase::LoadingGameVersion => "loading-game-version"@,
            Phrase::GameDiffFindingError => "game-diff-finding-error"@,
            Phrase::LoadingLauncherState => "loading-launcher-state"@,
            Phrase::LoadingLauncherStateGame => "loading-launcher-state--game"@,
            Phrase::LauncherStateUpdatingError => "launcher-state-updating-error"@,
            Phrase::ConfigUpdateError => "config-update-error"@,
            Phrase::LauncherFolderOpeningError => "launcher-folder-opening-error"@,
            Phrase::GameFolderOpeningError => "game-folder-opening-error"@,
            Phrase::ConfigFileOpeningError => "config-file-opening-error"@,
            Phrase::DebugFileOpeningError => "debug-file-opening-error"@,
            Phrase::ActionFailed => "action-failed"@,
            Phrase::Launch => "launch"@,
            Phrase::DownloadWine => "download-wine"@,
            Phrase::CreatePrefix => "create-prefix"@,
            Phrase::Resume => "resume"@,
            Phrase::Update => "update"@,
            Phrase::Download => "download"@,
            Phrase::Details => "details"@,
            Phrase::Close => "close"@,
            Phrase::Save => "save"@,
        }
    }

    /// The key under which the wording of the phrase is kept.
    pub fn key(&self) -> (k: &'static str)
        ensures
            k@ == self.key_text(),
    {
        match self {
            Phrase::DownloadingBackgroundPicture => "downloading-background-picture",
            Phrase::BackgroundDownloadingFailed => "background-downloading-failed",
            Phrase::UpdatingComponentsIndex => "updating-components-index",
            Phrase::ComponentsIndexUpdated => "components-index-updated",
            Phrase::ComponentsIndexSyncFailed => "components-index-sync-failed",
            Phrase::ComponentsIndexVerifyFailed => "components-index-verify-failed",
            Phrase::LoadingGameVersion => "loading-game-version",
            Phrase::GameDiffFindingError => "game-diff-finding-error",
            Phrase::LoadingLauncherState => "loading-launcher-state",
            Phrase::LoadingLauncherStateGame => "loading-launcher-state--game",
            Phrase::LauncherStateUpdatingError => "launcher-state-updating-error",
            Phrase::ConfigUpdateError => "config-update-error",
            Phrase::LauncherFolderOpeningError => "launcher-folder-opening-error",
            Phrase::GameFolderOpeningError => "game-folder-opening-error",
            Phrase::ConfigFileOpeningError => "config-file-opening-error",
            Phrase::DebugFileOpeningError => "debug-file-opening-error",
            Phrase::ActionFailed => "action-failed",
            Phrase::Launch => "launch",
            Phrase::DownloadWine => "download-wine",
            Phrase::CreatePrefix => "create-prefix",
            Phrase::Resume => "resume",
            Phrase::Update => "update",
            Phrase::Download => "download",
            Phrase::Details => "details",
            Phrase::Close => "close",
            Phrase::Save => "save",
        }
    }
}

/// A text to show: a phrase whose wording is looked up, or wording that is
/// shown as it is.
#[derive(Debug, PartialEq, Eq)]
pub enum Text {
    Phrase(Phrase),
    Plain(String),
}

/// What a [`Text`] stands for.
pub enum TextView {
    Phrase(Phrase),
    Plain(Seq<char>),
}

impl View for Text {
    type V = TextView;

    open spec fn view(&self) -> TextView {
        match self {
            Text::Phrase(p) => TextView::Phrase(*p),
            Text::Plain(s) => TextView::Plain(s@),
        }
    }
}

impl DeepView for Text {
    type V = TextView;

    open spec fn deep_view(&self) -> TextView {
        self@
    }
}

impl Clone for Text {
    fn clone(&self) -> (copy: Self)
        ensures
            copy@ == self@,
    {
        match self {
            Text::Phrase(p) => Text::Phrase(*p),
            Text::Plain(s) => Text::Plain(s.clone()),
        }
    }
}

impl Text {
    /// The text that shows the given wording as it is.
    pub fn plain(wording: &str) -> (text: Text)
        ensures
            text@ == TextView::Plain(wording@),
    {
        Text::Plain(String::from_str(wording))
    }
}

} // verus!
