//! The messages that workers and foreground exchange.
//!
//! The set is closed, and each kind has a fixed payload. A worker's messages
//! reach the foreground in the order in which they were sent.

use vstd::prelude::*;
use crate::state::{LauncherState, LauncherStateView, VersionDiff, VersionDiffView};
use crate::text::{Phrase, Text, TextView};

verus! {

/// How the launcher looks.
#[derive(Clone, Copy, Debug, PartialEq, Eq, Structural)]
pub enum LauncherStyle {
    Modern,
    Classic,
}

/// A message to the foreground.
#[derive(Debug, PartialEq, Eq)]
pub enum AppMsg {
    /// Resolve the launcher state anew.
    UpdateLauncherState {
        /// Perform the action at once when the new state asks for a
        /// download: this chains one download after another.
        perform_on_download_needed: bool,
        /// Show the status page while the state is resolved; without it the
        /// buttons are disabled instead.
        show_status_page: bool,
    },
    /// The difference to the latest game version is known, or could not be
    /// found.
    SetGameDiff(Option<VersionDiff>),
    /// The launcher state was resolved, or could not be.
    SetLauncherState(Option<LauncherState>),
    SetLauncherStyle(LauncherStyle),
    /// What the status page says: no page, a page without a description, or
    /// a page with one.
    SetLoadingStatus(Option<Option<Text>>),
    SetDownloading(bool),
    DisableButtons(bool),
    OpenPreferences,
    RepairGame,
    /// Perform the action of the current state.
    PerformAction,
    HideWindow,
    ShowWindow,
    /// Show a notification, with details if there is a description.
    Toast { title: Text, description: Option<Text> },
}

/// What an [`AppMsg`] stands for.
pub enum AppMsgView {
    UpdateLauncherState { perform_on_download_needed: bool, show_status_page: bool },
    SetGameDiff(Option<VersionDiffView>),
    SetLauncherState(Option<LauncherStateView>),
    SetLauncherStyle(LauncherStyle),
    SetLoadingStatus(Option<Option<TextView>>),
    SetDownloading(bool),
    DisableButtons(bool),
    OpenPreferences,
    RepairGame,
    PerformAction,
    HideWindow,
    ShowWindow,
    Toast { title: TextView, description: Option<TextView> },
}

impl View for AppMsg {
    type V = AppMsgView;

    open spec fn view(&self) -> AppMsgView {
        match self {
            AppMsg::UpdateLauncherState { perform_on_download_needed, show_status_page } => {
                AppMsgView::UpdateLauncherState {
                    perform_on_download_needed: *perform_on_download_needed,
                    show_status_page: *show_status_page,
                }
            },
            AppMsg::SetGameDiff(diff) => AppMsgView::SetGameDiff(diff.deep_view()),
            AppMsg::SetLauncherState(state) => AppMsgView::SetLauncherState(state.deep_view()),
            AppMsg::SetLauncherStyle(style) => AppMsgView::SetLauncherStyle(*style),
            AppMsg::SetLoadingStatus(status) => AppMsgView::SetLoadingStatus(status.deep_view()),
            AppMsg::SetDownloading(on) => AppMsgView::SetDownloading(*on),
            AppMsg::DisableButtons(on) => AppMsgView::DisableButtons(*on),
            AppMsg::OpenPreferences => AppMsgView::OpenPreferences,
            AppMsg::RepairGame => AppMsgView::RepairGame,
            AppMsg::PerformAction => AppMsgView::PerformAction,
            AppMsg::HideWindow => AppMsgView::HideWindow,
            AppMsg::ShowWindow => AppMsgView::ShowWindow,
            AppMsg::Toast { title, description } => AppMsgView::Toast {
                title: title@,
                description: description.deep_view(),
            },
        }
    }
}

impl DeepView for AppMsg {
    type V = AppMsgView;

    open spec fn deep_view(&self) -> AppMsgView {
        self@
    }
}

/// The message that puts `phrase` on the status page.
pub open spec fn status_msg(phrase: Phrase) -> AppMsgView {
    AppMsgView::SetLoadingStatus(Some(Some(TextView::Phrase(phrase))))
}

/// The notification of a failure: `title` names what failed, and the
/// message of the failure is the description.
pub open spec fn failure_msg(title: Phrase, message: Seq<char>) -> AppMsgView {
    AppMsgView::Toast {
        title: TextView::Phrase(title),
        description: Some(TextView::Plain(message)),
    }
}

impl AppMsg {
    /// The message that puts `phrase` on the status page.
    pub fn status(phrase: Phrase) -> (msg: AppMsg)
        ensures
            msg@ == status_msg(phrase),
    {
        AppMsg::SetLoadingStatus(Some(Some(Text::Phrase(phrase))))
    }

    /// The notification of a failure.
    pub fn failure(title: Phrase, message: String) -> (msg: AppMsg)
        ensures
            msg@ == failure_msg(title, message@),
    {
        AppMsg::Toast { title: Text::Phrase(title), description: Some(Text::Plain(message)) }
    }
}

/// Adds a message to those that are to be sent.
pub(crate) fn send(messages: &mut Vec<AppMsg>, msg: AppMsg)
    ensures
        final(messages).deep_view() == old(messages).deep_view().push(msg@),
{
    messages.push(msg);
    assert(messages.deep_view() =~= old(messages).deep_view().push(msg@));
}

/// No messages.
pub(crate) fn no_messages() -> (messages: Vec<AppMsg>)
    ensures
        messages.deep_view() == Seq::<AppMsgView>::empty(),
{
    let messages: Vec<AppMsg> = Vec::new();
    assert(messages.deep_view() =~= Seq::<AppMsgView>::empty());
    messages
}

} // verus!
