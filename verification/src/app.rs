//! The foreground model: what the launcher shows, and how it reacts to the
//! messages that reach it.
//!
//! The model holds the status page, the style, the launcher state and the
//! two flags of the buttons. [`App::update`] takes one message, changes the
//! model and answers with what is to be done outside: messages to send on,
//! windows to show, an action to perform, a resolution to run. A resolution
//! is run outside, between [`App::update`], which asks for it, and
//! [`App::finish_update`], which takes its result.

use vstd::prelude::*;
use crate::dispatch::{dispatch, dispatch_spec, transfer, transfer_spec, Action, ActionView, Transfer};
use crate::error::{ActionError, ConfigError, ResolutionError};
use crate::message::{failure_msg, no_messages, send, AppMsg, AppMsgView, LauncherStyle};
use crate::state::{
    LauncherState, LauncherStateView, StateUpdating, VersionDiff, VersionDiffView,
};
use crate::text::{Phrase, Text, TextView};

verus! {

// ----------------------------------------------------------------------
// Notifications
// ----------------------------------------------------------------------

/// A notification.
#[derive(Debug, PartialEq, Eq)]
pub struct Toast {
    pub title: Text,
    /// How many seconds the notification stays.
    pub timeout: u32,
    /// What the dialog says that a button on the notification opens; the
    /// notification has that button only if there is something to say.
    pub details: Option<Text>,
}

/// What a [`Toast`] stands for.
pub struct ToastView {
    pub title: TextView,
    pub timeout: u32,
    pub details: Option<TextView>,
}

impl View for Toast {
    type V = ToastView;

    open spec fn view(&self) -> ToastView {
        ToastView { title: self.title@, timeout: self.timeout, details: self.details.deep_view() }
    }
}

/// The notification for a title and a description: it stays four seconds,
/// and the description is what its dialog says.
pub open spec fn toast_spec(title: TextView, description: Option<TextView>) -> ToastView {
    ToastView { title, timeout: 4, details: description }
}

impl Toast {
    /// The label of the button that opens the dialog, if the notification
    /// has one.
    pub fn button(&self) -> (label: Option<Phrase>)
        ensures
            label == if self@.details is Some {
                Some(Phrase::Details)
            } else {
                None
            },
    {
        match &self.details {
            Some(_) => Some(Phrase::Details),
            None => None,
        }
    }
}

/// An answer to the dialog of a notification.
#[derive(Clone, Copy, Debug, PartialEq, Eq, Structural)]
pub enum DialogResponse {
    Close,
    Save,
}

impl DialogResponse {
    /// The label of the answer.
    pub fn label(self) -> (label: Phrase)
        ensures
            label == match self {
                DialogResponse::Close => Phrase::Close,
                DialogResponse::Save => Phrase::Save,
            },
    {
        match self {
            DialogResponse::Close => Phrase::Close,
            DialogResponse::Save => Phrase::Save,
        }
    }

    /// Whether the dialog suggests the answer.
    pub fn suggested(self) -> (suggested: bool)
        ensures
            suggested == (self == DialogResponse::Save),
    {
        match self {
            DialogResponse::Close => false,
            DialogResponse::Save => true,
        }
    }

    /// What is opened after the answer: the debug file after `Save`.
    pub fn opens(self) -> (target: Option<OpenTarget>)
        ensures
            target == match self {
                DialogResponse::Close => None,
                DialogResponse::Save => Some(OpenTarget::DebugFile),
            },
    {
        match self {
            DialogResponse::Close => None,
            DialogResponse::Save => Some(OpenTarget::DebugFile),
        }
    }
}

// ----------------------------------------------------------------------
// The menu and the window
// ----------------------------------------------------------------------

/// What the menu of the window opens.
#[derive(Clone, Copy, Debug, PartialEq, Eq, Structural)]
pub enum OpenTarget {
    LauncherFolder,
    GameFolder,
    ConfigFile,
    DebugFile,
}

impl OpenTarget {
    /// The phrase for the failure to open the target.
    pub open spec fn failure_phrase(self) -> Phrase {
        match self {
            OpenTarget::LauncherFolder => Phrase::LauncherFolderOpeningError,
            OpenTarget::GameFolder => Phrase::GameFolderOpeningError,
            OpenTarget::ConfigFile => Phrase::ConfigFileOpeningError,
            OpenTarget::DebugFile => Phrase::DebugFileOpeningError,
        }
    }
}

/// The message to send when `target` could not be opened.
pub fn open_failed(target: OpenTarget, message: String) -> (msg: AppMsg)
    ensures
        msg@ == failure_msg(target.failure_phrase(), message@),
{
    let phrase = match target {
        OpenTarget::LauncherFolder => Phrase::LauncherFolderOpeningError,
        OpenTarget::GameFolder => Phrase::GameFolderOpeningError,
        OpenTarget::ConfigFile => Phrase::ConfigFileOpeningError,
        OpenTarget::DebugFile => Phrase::DebugFileOpeningError,
    };
    AppMsg::failure(phrase, message)
}

/// The folder of the game: the one that the configuration names now, or,
/// when the configuration cannot be read, the one it named at the start.
pub fn game_folder(current: Result<String, ConfigError>, at_start: String) -> (folder: String)
    ensures
        folder@ == match current {
            Ok(path) => path@,
            Err(_) => at_start@,
        },
{
    match current {
        Ok(path) => path,
        Err(_) => at_start,
    }
}

/// The message to send when the window is closed, after the configuration
/// was written back: a failure to write it is told to the user. The window
/// closes either way.
pub fn on_close(flushed: Result<(), ConfigError>) -> (msg: Option<AppMsg>)
    ensures
        msg.deep_view() == match flushed {
            Ok(_) => None,
            Err(e) => Some(failure_msg(Phrase::ConfigUpdateError, e@)),
        },
{
    match flushed {
        Ok(_) => None,
        Err(e) => Some(AppMsg::failure(Phrase::ConfigUpdateError, e.message)),
    }
}

/// The size of the window in each style: width and height.
pub fn default_size(style: LauncherStyle) -> (size: (i32, i32))
    ensures
        size == match style {
            LauncherStyle::Modern => (900i32, 600i32),
            LauncherStyle::Classic => (1094i32, 624i32),
        },
{
    match style {
        LauncherStyle::Modern => (900, 600),
        LauncherStyle::Classic => (1094, 624),
    }
}

// ----------------------------------------------------------------------
// Actions that have ended
// ----------------------------------------------------------------------

/// The messages after an action has ended. After a success the launcher
/// state is resolved anew, with the two settings given, so that the next
/// prerequisite that is not met comes up; a failure is told to the user.
pub open spec fn action_finished_spec(
    outcome: Option<Seq<char>>,
    perform_on_download_needed: bool,
    show_status_page: bool,
) -> Seq<AppMsgView> {
    match outcome {
        None => seq![
            AppMsgView::UpdateLauncherState { perform_on_download_needed, show_status_page },
        ],
        Some(e) => seq![failure_msg(Phrase::ActionFailed, e)],
    }
}

/// The messages to send after an action has ended.
pub fn action_finished(
    outcome: Result<(), ActionError>,
    perform_on_download_needed: bool,
    show_status_page: bool,
) -> (messages: Vec<AppMsg>)
    ensures
        messages.deep_view() == action_finished_spec(
            match outcome {
                Ok(_) => None,
                Err(e) => Some(e@),
            },
            perform_on_download_needed,
            show_status_page,
        ),
{
    let mut messages = no_messages();
    match outcome {
        Ok(_) => {
            send(
                &mut messages,
                AppMsg::UpdateLauncherState { perform_on_download_needed, show_status_page },
            );
        },
        Err(e) => {
            send(&mut messages, AppMsg::failure(Phrase::ActionFailed, e.message));
        },
    }
    messages
}

// ----------------------------------------------------------------------
// What the model asks for
// ----------------------------------------------------------------------

/// Something to be done outside the model.
#[derive(Debug, PartialEq, Eq)]
pub enum Command {
    /// Send this message to the foreground; it is taken after the messages
    /// that are waiting already.
    Send(AppMsg),
    /// Run a resolution, report its progress as [`resolution_progress`]
    /// says, and hand its result to [`App::finish_update`] with the same
    /// two settings.
    Resolve { perform_on_download_needed: bool, show_status_page: bool },
    /// Tell the preferences window of the difference.
    ForwardGameDiff(Option<VersionDiff>),
    PresentPreferences,
    RepairGame,
    /// Perform this action.
    Perform(Action),
    HideWindow,
    ShowWindow,
    ShowToast(Toast),
}

/// What a [`Command`] stands for.
pub enum CommandView {
    Send(AppMsgView),
    Resolve { perform_on_download_needed: bool, show_status_page: bool },
    ForwardGameDiff(Option<VersionDiffView>),
    PresentPreferences,
    RepairGame,
    Perform(ActionView),
    HideWindow,
    ShowWindow,
    ShowToast(ToastView),
}

impl View for Command {
    type V = CommandView;

    open spec fn view(&self) -> CommandView {
        match self {
            Command::Send(msg) => CommandView::Send(msg@),
            Command::Resolve { perform_on_download_needed, show_status_page } => {
                CommandView::Resolve {
                    perform_on_download_needed: *perform_on_download_needed,
                    show_status_page: *show_status_page,
                }
            },
            Command::ForwardGameDiff(diff) => CommandView::ForwardGameDiff(diff.deep_view()),
            Command::PresentPreferences => CommandView::PresentPreferences,
            Command::RepairGame => CommandView::RepairGame,
            Command::Perform(action) => CommandView::Perform(action@),
            Command::HideWindow => CommandView::HideWindow,
            Command::ShowWindow => CommandView::ShowWindow,
            Command::ShowToast(toast) => CommandView::ShowToast(toast@),
        }
    }
}

impl DeepView for Command {
    type V = CommandView;

    open spec fn deep_view(&self) -> CommandView {
        self@
    }
}

fn issue(commands: &mut Vec<Command>, command: Command)
    ensures
        final(commands).deep_view() == old(commands).deep_view().push(command@),
{
    commands.push(command);
    assert(commands.deep_view() =~= old(commands).deep_view().push(command@));
}

fn no_commands() -> (commands: Vec<Command>)
    ensures
        commands.deep_view() == Seq::<CommandView>::empty(),
{
    let commands: Vec<Command> = Vec::new();
    assert(commands.deep_view() =~= Seq::<CommandView>::empty());
    commands
}

/// What is put on the status page while a resolution runs: nothing unless
/// the status page is shown.
pub open spec fn resolution_progress_spec(
    show_status_page: bool,
    updating: StateUpdating,
) -> Option<AppMsgView> {
    if show_status_page {
        Some(
            AppMsgView::SetLoadingStatus(
                Some(
                    Some(
                        match updating {
                            StateUpdating::Components => TextView::Plain(
                                "Loading launcher state: checking components"@,
                            ),
                            StateUpdating::Game => TextView::Phrase(
                                Phrase::LoadingLauncherStateGame,
                            ),
                        },
                    ),
                ),
            ),
        )
    } else {
        None
    }
}

/// The message to send when a resolution reports what it is looking at.
pub fn resolution_progress(show_status_page: bool, updating: StateUpdating) -> (msg: Option<AppMsg>)
    ensures
        msg.deep_view() == resolution_progress_spec(show_status_page, updating),
{
    if show_status_page {
        let text = match updating {
            StateUpdating::Components => Text::plain("Loading launcher state: checking components"),
            StateUpdating::Game => Text::Phrase(Phrase::LoadingLauncherStateGame),
        };
        Some(AppMsg::SetLoadingStatus(Some(Some(text))))
    } else {
        None
    }
}

/// Whether a state asks for a download.
pub open spec fn demands_download(state: Option<LauncherStateView>) -> bool {
    state matches Some(s) && (s is GameUpdateAvailable || s is GameNotInstalled)
}

/// What the button of the action says: the action of the state, and dots
/// when there is no state. An update of the game that can take up a file
/// left behind is called a resumption.
pub open spec fn label_spec(state: Option<LauncherStateView>, partial_present: bool) -> TextView {
    match state {
        None => TextView::Plain("..."@),
        Some(LauncherStateView::Launch) => TextView::Phrase(Phrase::Launch),
        Some(LauncherStateView::WineNotInstalled) => TextView::Phrase(Phrase::DownloadWine),
        Some(LauncherStateView::PrefixNotExists) => TextView::Phrase(Phrase::CreatePrefix),
        Some(LauncherStateView::Mfc140NotInstalled) => TextView::Plain("Install mfc140"@),
        Some(LauncherStateView::CorefontsNotInstalled(_)) => TextView::Plain("Install corefonts"@),
        Some(LauncherStateView::GameUpdateAvailable(diff)) => match transfer_spec(
            diff,
            partial_present,
        ) {
            Transfer::Resume => TextView::Phrase(Phrase::Resume),
            Transfer::Restart => TextView::Phrase(Phrase::Update),
        },
        Some(LauncherStateView::GameNotInstalled(_)) => TextView::Phrase(Phrase::Download),
    }
}

/// The icon on the button of the action: one for starting the game, one for
/// everything that has to be fetched or installed first, and one for having
/// no state.
pub open spec fn icon_spec(state: Option<LauncherStateView>) -> Seq<char> {
    match state {
        None => "window-close-symbolic"@,
        Some(LauncherStateView::Launch) => "media-playback-start-symbolic"@,
        Some(_) => "document-save-symbolic"@,
    }
}

// ----------------------------------------------------------------------
// The model
// ----------------------------------------------------------------------

/// The foreground model.
#[derive(Debug, PartialEq, Eq)]
pub struct App {
    /// The status page: none, one without a description, or one with a
    /// description.
    pub loading: Option<Option<Text>>,
    pub style: LauncherStyle,
    /// The launcher state; none while it is not known, and then there is no
    /// action to perform.
    pub state: Option<LauncherState>,
    /// Whether a download is shown in place of the buttons.
    pub downloading: bool,
    pub disabled_buttons: bool,
}

/// What an [`App`] stands for.
pub struct AppView {
    pub loading: Option<Option<TextView>>,
    pub style: LauncherStyle,
    pub state: Option<LauncherStateView>,
    pub downloading: bool,
    pub disabled_buttons: bool,
}

impl View for App {
    type V = AppView;

    open spec fn view(&self) -> AppView {
        AppView {
            loading: self.loading.deep_view(),
            style: self.style,
            state: self.state.deep_view(),
            downloading: self.downloading,
            disabled_buttons: self.disabled_buttons,
        }
    }
}

impl AppView {
    /// The model at the start: the status page is shown without a
    /// description, nothing is known, nothing is disabled.
    pub open spec fn initial(style: LauncherStyle) -> AppView {
        AppView {
            loading: Some(None),
            style,
            state: None,
            downloading: false,
            disabled_buttons: false,
        }
    }

    /// The model after a message, and what is to be done outside.
    ///
    /// The messages that set a part of the model set it and ask for
    /// nothing. The others leave the model as it is, but for one: a
    /// request to resolve the state without the status page disables the
    /// buttons. A request to resolve the state puts the status page up
    /// first, if it is shown, and then asks for the resolution. A request to
    /// perform the action asks for the action of the state, and for nothing
    /// when there is no state.
    pub open spec fn update(self, msg: AppMsgView) -> (AppView, Seq<CommandView>) {
        match msg {
            AppMsgView::UpdateLauncherState { perform_on_download_needed, show_status_page } => {
                let resolve = CommandView::Resolve { perform_on_download_needed, show_status_page };
                if show_status_page {
                    (
                        self,
                        seq![
                            CommandView::Send(
                                AppMsgView::SetLoadingStatus(
                                    Some(Some(TextView::Phrase(Phrase::LoadingLauncherState))),
                                ),
                            ),
                            resolve,
                        ],
                    )
                } else {
                    (AppView { disabled_buttons: true, ..self }, seq![resolve])
                }
            },
            AppMsgView::SetGameDiff(diff) => (self, seq![CommandView::ForwardGameDiff(diff)]),
            AppMsgView::SetLauncherState(state) => (AppView { state, ..self }, Seq::empty()),
            AppMsgView::SetLauncherStyle(style) => (AppView { style, ..self }, Seq::empty()),
            AppMsgView::SetLoadingStatus(loading) => (AppView { loading, ..self }, Seq::empty()),
            AppMsgView::SetDownloading(downloading) => (
                AppView { downloading, ..self },
                Seq::empty(),
            ),
            AppMsgView::DisableButtons(disabled_buttons) => (
                AppView { disabled_buttons, ..self },
                Seq::empty(),
            ),
            AppMsgView::OpenPreferences => (self, seq![CommandView::PresentPreferences]),
            AppMsgView::RepairGame => (self, seq![CommandView::RepairGame]),
            AppMsgView::PerformAction => match self.state {
                Some(state) => (self, seq![CommandView::Perform(dispatch_spec(state))]),
                None => (self, Seq::empty()),
            },
            AppMsgView::HideWindow => (self, seq![CommandView::HideWindow]),
            AppMsgView::ShowWindow => (self, seq![CommandView::ShowWindow]),
            AppMsgView::Toast { title, description } => (
                self,
                seq![CommandView::ShowToast(toast_spec(title, description))],
            ),
        }
    }

    /// The model after one message after the other, and everything that is
    /// to be done outside, in the order in which it was asked for.
    pub open spec fn update_all(self, msgs: Seq<AppMsgView>) -> (AppView, Seq<CommandView>)
        decreases msgs.len(),
    {
        if msgs.len() == 0 {
            (self, Seq::empty())
        } else {
            let (then, first) = self.update(msgs[0]);
            let (end, rest) = then.update_all(msgs.drop_first());
            (end, first + rest)
        }
    }

    /// The model after a resolution has ended, and what is to be done
    /// outside. A failure is told to the user, and the state is then not
    /// known. The state is sent to the foreground; the status page is
    /// taken down, if it was shown, and else the buttons are enabled again.
    /// At last the action is asked for, if that was wanted and the state
    /// asks for a download.
    pub open spec fn finish_update(
        self,
        outcome: Result<LauncherStateView, Seq<char>>,
        perform_on_download_needed: bool,
        show_status_page: bool,
    ) -> (AppView, Seq<CommandView>) {
        let state = match outcome {
            Ok(s) => Some(s),
            Err(_) => None,
        };
        let told = match outcome {
            Ok(_) => Seq::empty(),
            Err(e) => seq![
                CommandView::ShowToast(
                    toast_spec(
                        TextView::Phrase(Phrase::LauncherStateUpdatingError),
                        Some(TextView::Plain(e)),
                    ),
                ),
            ],
        };
        let set = told.push(CommandView::Send(AppMsgView::SetLauncherState(state)));
        let cleared = if show_status_page {
            set.push(CommandView::Send(AppMsgView::SetLoadingStatus(None)))
        } else {
            set
        };
        let commands = if perform_on_download_needed && demands_download(state) {
            cleared.push(CommandView::Send(AppMsgView::PerformAction))
        } else {
            cleared
        };
        (
            if show_status_page {
                self
            } else {
                AppView { disabled_buttons: false, ..self }
            },
            commands,
        )
    }

    /// Whether the button of the action can be pressed.
    pub open spec fn action_enabled(self) -> bool {
        !self.disabled_buttons && self.state is Some
    }
}

impl App {
    /// The model at the start.
    pub fn new(style: LauncherStyle) -> (app: App)
        ensures
            app@ == AppView::initial(style),
    {
        App { loading: Some(None), style, state: None, downloading: false, disabled_buttons: false }
    }

    /// The notification for a title and a description.
    pub fn toast(&self, title: Text, description: Option<Text>) -> (toast: Toast)
        ensures
            toast@ == toast_spec(title@, description.deep_view()),
    {
        Toast { title, timeout: 4, details: description }
    }

    /// Takes one message.
    pub fn update(&mut self, msg: AppMsg) -> (commands: Vec<Command>)
        ensures
            final(self)@ == old(self)@.update(msg@).0,
            commands.deep_view() == old(self)@.update(msg@).1,
    {
        let mut commands = no_commands();
        match msg {
            AppMsg::UpdateLauncherState { perform_on_download_needed, show_status_page } => {
                if show_status_page {
                    issue(
                        &mut commands,
                        Command::Send(AppMsg::status(Phrase::LoadingLauncherState)),
                    );
                } else {
                    self.disabled_buttons = true;
                }
                issue(
                    &mut commands,
                    Command::Resolve { perform_on_download_needed, show_status_page },
                );
            },
            AppMsg::SetGameDiff(diff) => {
                issue(&mut commands, Command::ForwardGameDiff(diff));
            },
            AppMsg::SetLauncherState(state) => {
                self.state = state;
            },
            AppMsg::SetLauncherStyle(style) => {
                self.style = style;
            },
            AppMsg::SetLoadingStatus(status) => {
                self.loading = status;
            },
            AppMsg::SetDownloading(on) => {
                self.downloading = on;
            },
            AppMsg::DisableButtons(on) => {
                self.disabled_buttons = on;
            },
            AppMsg::OpenPreferences => {
                issue(&mut commands, Command::PresentPreferences);
            },
            AppMsg::RepairGame => {
                issue(&mut commands, Command::RepairGame);
            },
            AppMsg::PerformAction => {
                match &self.state {
                    Some(state) => {
                        let action = dispatch(state);
                        issue(&mut commands, Command::Perform(action));
                    },
                    None => {},
                }
            },
            AppMsg::HideWindow => {
                issue(&mut commands, Command::HideWindow);
            },
            AppMsg::ShowWindow => {
                issue(&mut commands, Command::ShowWindow);
            },
            AppMsg::Toast { title, description } => {
                let toast = self.toast(title, description);
                issue(&mut commands, Command::ShowToast(toast));
            },
        }
        commands
    }

    /// Takes the messages of one sender in the order in which they were
    /// sent.
    pub fn update_all(&mut self, msgs: Vec<AppMsg>) -> (commands: Vec<Command>)
        ensures
            final(self)@ == old(self)@.update_all(msgs.deep_view()).0,
            commands.deep_view() == old(self)@.update_all(msgs.deep_view()).1,
    {
        let ghost all = msgs.deep_view();
        let ghost begun = self@;
        let mut queue = msgs;
        let mut commands = no_commands();
        while queue.len() > 0
            invariant
                begun.update_all(all).0 == self@.update_all(queue.deep_view()).0,
                begun.update_all(all).1 == commands.deep_view() + self@.update_all(
                    queue.deep_view(),
                ).1,
            decreases queue.len(),
        {
            let ghost waiting = queue.deep_view();
            let ghost before = self@;
            let ghost issued = commands.deep_view();
            let msg = queue.remove(0);
            assert(queue.deep_view() =~= waiting.drop_first());
            assert(msg@ == waiting[0]);
            let mut asked = self.update(msg);
            let ghost first = asked.deep_view();
            commands.append(&mut asked);
            assert(commands.deep_view() =~= issued + first);
            assert(issued + (first + self@.update_all(queue.deep_view()).1) =~= (issued + first)
                + self@.update_all(queue.deep_view()).1);
        }
        commands
    }

    /// Takes the result of the resolution that [`App::update`] asked for,
    /// with the two settings of that request.
    pub fn finish_update(
        &mut self,
        outcome: Result<LauncherState, ResolutionError>,
        perform_on_download_needed: bool,
        show_status_page: bool,
    ) -> (commands: Vec<Command>)
        ensures
            final(self)@ == old(self)@.finish_update(
                match outcome {
                    Ok(s) => Ok(s@),
                    Err(e) => Err(e@),
                },
                perform_on_download_needed,
                show_status_page,
            ).0,
            commands.deep_view() == old(self)@.finish_update(
                match outcome {
                    Ok(s) => Ok(s@),
                    Err(e) => Err(e@),
                },
                perform_on_download_needed,
                show_status_page,
            ).1,
    {
        let mut commands = no_commands();
        let state = match outcome {
            Ok(state) => Some(state),
            Err(e) => {
                let toast = self.toast(
                    Text::Phrase(Phrase::LauncherStateUpdatingError),
                    Some(Text::Plain(e.message)),
                );
                issue(&mut commands, Command::ShowToast(toast));
                None
            },
        };
        let demanded = match &state {
            Some(LauncherState::GameUpdateAvailable(_)) => true,
            Some(LauncherState::GameNotInstalled(_)) => true,
            _ => false,
        };
        issue(&mut commands, Command::Send(AppMsg::SetLauncherState(state)));
        if show_status_page {
            issue(&mut commands, Command::Send(AppMsg::SetLoadingStatus(None)));
        } else {
            self.disabled_buttons = false;
        }
        if perform_on_download_needed && demanded {
            issue(&mut commands, Command::Send(AppMsg::PerformAction));
        }
        commands
    }

    /// Whether the button of the action can be pressed: the buttons are not
    /// disabled and there is a state to act on.
    pub fn action_enabled(&self) -> (enabled: bool)
        ensures
            enabled == self@.action_enabled(),
    {
        !self.disabled_buttons && self.state.is_some()
    }

    /// The name of the icon on the button of the action.
    pub fn action_icon(&self) -> (icon: &'static str)
        ensures
            icon@ == icon_spec(self@.state),
    {
        match &self.state {
            None => "window-close-symbolic",
            Some(LauncherState::Launch) => "media-playback-start-symbolic",
            Some(_) => "document-save-symbolic",
        }
    }

    /// The name of the file that an update of the game would take up, to be
    /// looked for in the temporary directory.
    pub fn resume_file(&self) -> (name: Option<String>)
        ensures
            name.deep_view() == match self@.state {
                Some(LauncherStateView::GameUpdateAvailable(diff)) => diff.file_name,
                _ => None,
            },
    {
        match &self.state {
            Some(LauncherState::GameUpdateAvailable(diff)) => diff.file_name(),
            _ => None,
        }
    }

    /// What the button of the action says. `partial_present` says whether
    /// the file that [`App::resume_file`] names lies in the temporary
    /// directory.
    pub fn action_label(&self, partial_present: bool) -> (label: Text)
        ensures
            label@ == label_spec(self@.state, partial_present),
    {
        match &self.state {
            None => Text::plain("..."),
            Some(LauncherState::Launch) => Text::Phrase(Phrase::Launch),
            Some(LauncherState::WineNotInstalled) => Text::Phrase(Phrase::DownloadWine),
            Some(LauncherState::PrefixNotExists) => Text::Phrase(Phrase::CreatePrefix),
            Some(LauncherState::Mfc140NotInstalled) => Text::plain("Install mfc140"),
            Some(LauncherState::CorefontsNotInstalled(_)) => Text::plain("Install corefonts"),
            Some(LauncherState::GameUpdateAvailable(diff)) => match transfer(
                diff,
                partial_present,
            ) {
                Transfer::Resume => Text::Phrase(Phrase::Resume),
                Transfer::Restart => Text::Phrase(Phrase::Update),
            },
            Some(LauncherState::GameNotInstalled(_)) => Text::Phrase(Phrase::Download),
        }
    }
}

// ----------------------------------------------------------------------
// What holds of every run
// ----------------------------------------------------------------------

/// Whether a message sets a part of the model and does nothing else.
pub open spec fn is_setter(msg: AppMsgView) -> bool {
    ||| msg is SetLauncherState
    ||| msg is SetLauncherStyle
    ||| msg is SetLoadingStatus
    ||| msg is SetDownloading
    ||| msg is DisableButtons
}

/// Taking a message twice is as good as taking it once, for the messages
/// that set a part of the model and for notifications: the second time the
/// model stays as it is. A notification never changes the model.
pub proof fn lemma_duplicates_are_harmless(app: AppView, msg: AppMsgView)
    requires
        is_setter(msg) || msg is Toast,
    ensures
        app.update(msg).0.update(msg).0 == app.update(msg).0,
        msg is Toast ==> app.update(msg).0 == app,
        is_setter(msg) ==> app.update(msg).1 == Seq::<CommandView>::empty(),
{
}

/// A notification that arrives late does no harm: whenever it is taken,
/// before or after any other message, the model ends up the same.
pub proof fn lemma_toast_commutes(
    app: AppView,
    title: TextView,
    description: Option<TextView>,
    msg: AppMsgView,
)
    ensures
        app.update(AppMsgView::Toast { title, description }).0.update(msg).0 == app.update(
            msg,
        ).0.update(AppMsgView::Toast { title, description }).0,
{
}

/// The last write wins: of two messages that set the status page, the one
/// that is taken last decides what the page says, whatever the model held
/// before; and so for the state.
pub proof fn lemma_last_write_wins(
    app: AppView,
    first: Option<Option<TextView>>,
    last: Option<Option<TextView>>,
    earlier: Option<LauncherStateView>,
    later: Option<LauncherStateView>,
)
    ensures
        app.update_all(
            seq![AppMsgView::SetLoadingStatus(first), AppMsgView::SetLoadingStatus(last)],
        ).0 == (AppView { loading: last, ..app }),
        app.update_all(
            seq![AppMsgView::SetLauncherState(earlier), AppMsgView::SetLauncherState(later)],
        ).0 == (AppView { state: later, ..app }),
{
    let status = seq![AppMsgView::SetLoadingStatus(first), AppMsgView::SetLoadingStatus(last)];
    lemma_update_all_unfolds(app, status);
    lemma_update_all_unfolds(app.update(status[0]).0, status.drop_first());
    assert(status.drop_first().drop_first() =~= Seq::<AppMsgView>::empty());
    let states = seq![AppMsgView::SetLauncherState(earlier), AppMsgView::SetLauncherState(later)];
    lemma_update_all_unfolds(app, states);
    lemma_update_all_unfolds(app.update(states[0]).0, states.drop_first());
    assert(states.drop_first().drop_first() =~= Seq::<AppMsgView>::empty());
}

/// Taking messages one after the other begins with the first.
pub proof fn lemma_update_all_unfolds(app: AppView, msgs: Seq<AppMsgView>)
    requires
        msgs.len() > 0,
    ensures
        app.update_all(msgs).0 == app.update(msgs[0]).0.update_all(msgs.drop_first()).0,
        app.update_all(msgs).1 == app.update(msgs[0]).1 + app.update(msgs[0]).0.update_all(
            msgs.drop_first(),
        ).1,
{
}

/// Messages are taken in the order in which they were sent: taking one
/// batch and then another is taking the two as one.
pub proof fn lemma_update_all_in_order(app: AppView, a: Seq<AppMsgView>, b: Seq<AppMsgView>)
    ensures
        app.update_all(a + b).0 == app.update_all(a).0.update_all(b).0,
        app.update_all(a + b).1 == app.update_all(a).1 + app.update_all(a).0.update_all(b).1,
    decreases a.len(),
{
    if a.len() == 0 {
        assert(a + b =~= b);
        assert(Seq::<CommandView>::empty() + app.update_all(b).1 =~= app.update_all(b).1);
    } else {
        let then = app.update(a[0]).0;
        assert((a + b).drop_first() =~= a.drop_first() + b);
        assert((a + b)[0] == a[0]);
        lemma_update_all_in_order(then, a.drop_first(), b);
        let first = app.update(a[0]).1;
        let middle = then.update_all(a.drop_first()).1;
        let last = then.update_all(a.drop_first()).0.update_all(b).1;
        assert(first + (middle + last) =~= (first + middle) + last);
    }
}

/// The messages among the commands, in their order: what the foreground
/// sends to itself.
pub open spec fn sent(commands: Seq<CommandView>) -> Seq<AppMsgView>
    decreases commands.len(),
{
    if commands.len() == 0 {
        Seq::empty()
    } else {
        match commands.last() {
            CommandView::Send(msg) => sent(commands.drop_last()).push(msg),
            _ => sent(commands.drop_last()),
        }
    }
}

/// Taking messages one after the other ends with the last.
pub proof fn lemma_update_all_ends(app: AppView, msgs: Seq<AppMsgView>, last: AppMsgView)
    ensures
        app.update_all(msgs.push(last)).0 == app.update_all(msgs).0.update(last).0,
{
    lemma_update_all_in_order(app, msgs, seq![last]);
    assert(msgs + seq![last] =~= msgs.push(last));
    let then = app.update_all(msgs).0;
    lemma_update_all_unfolds(then, seq![last]);
    assert(seq![last].drop_first() =~= Seq::<AppMsgView>::empty());
}

/// What a resolution leaves behind. Once the foreground has taken the
/// messages that it sent to itself at the end of a resolution, the model
/// holds the state that was resolved, or none after a failure; the status
/// page is down, if it was shown, and else the buttons are enabled; and the
/// rest of the model is as it was.
pub proof fn lemma_resolution_settles(
    app: AppView,
    outcome: Result<LauncherStateView, Seq<char>>,
    perform_on_download_needed: bool,
    show_status_page: bool,
)
    ensures
        ({
            let (then, commands) = app.finish_update(
                outcome,
                perform_on_download_needed,
                show_status_page,
            );
            let settled = then.update_all(sent(commands)).0;
            &&& settled.state == match outcome {
                Ok(state) => Some(state),
                Err(_) => None,
            }
            &&& settled.loading == if show_status_page {
                None
            } else {
                app.loading
            }
            &&& settled.disabled_buttons == if show_status_page {
                app.disabled_buttons
            } else {
                false
            }
            &&& settled.style == app.style
            &&& settled.downloading == app.downloading
        }),
{
    let (then, commands) = app.finish_update(outcome, perform_on_download_needed, show_status_page);
    let state = match outcome {
        Ok(s) => Some(s),
        Err(_) => None,
    };
    let told = match outcome {
        Ok(_) => Seq::<CommandView>::empty(),
        Err(e) => seq![
            CommandView::ShowToast(
                toast_spec(
                    TextView::Phrase(Phrase::LauncherStateUpdatingError),
                    Some(TextView::Plain(e)),
                ),
            ),
        ],
    };
    let set_state = AppMsgView::SetLauncherState(state);
    let clear = AppMsgView::SetLoadingStatus(None);
    let perform = AppMsgView::PerformAction;
    let none = Seq::<AppMsgView>::empty();

    // What was sent, from the first command on.
    assert(sent(told) == none) by {
        if told.len() > 0 {
            assert(told.drop_last() =~= Seq::<CommandView>::empty());
            assert(sent(told.drop_last()) == none);
        }
    }
    let set = told.push(CommandView::Send(set_state));
    assert(set.drop_last() =~= told);
    assert(sent(set) == none.push(set_state));
    let cleared = if show_status_page {
        set.push(CommandView::Send(clear))
    } else {
        set
    };
    if show_status_page {
        assert(cleared.drop_last() =~= set);
    }
    let asked = perform_on_download_needed && demands_download(state);
    if asked {
        assert(commands.drop_last() =~= cleared);
    }

    // What taking it leaves.
    let first = then.update_all(none.push(set_state)).0;
    assert(first == (AppView { state, ..then })) by {
        lemma_update_all_ends(then, none, set_state);
    }
    let second = then.update_all(sent(cleared)).0;
    assert(second == if show_status_page {
        AppView { loading: None, ..first }
    } else {
        first
    }) by {
        if show_status_page {
            lemma_update_all_ends(then, none.push(set_state), clear);
        }
    }
    if asked {
        lemma_update_all_ends(then, sent(cleared), perform);
    }
}

/// With no state there is nothing to do: the button of the action cannot
/// be pressed, and a request to perform the action asks for nothing. With a
/// state, the request asks for exactly the action of that state.
pub proof fn lemma_no_state_no_action(app: AppView)
    ensures
        app.state is None ==> !app.action_enabled() && app.update(AppMsgView::PerformAction).1
            == Seq::<CommandView>::empty(),
        app.state matches Some(state) ==> app.update(AppMsgView::PerformAction).1
            == seq![CommandView::Perform(dispatch_spec(state))],
        app.update(AppMsgView::PerformAction).0 == app,
{
}

/// A resolution that fails leaves no state behind: the failure is shown,
/// the state is set to none, and the action is never asked for.
pub proof fn lemma_failed_resolution_disables_action(
    app: AppView,
    failure: Seq<char>,
    perform_on_download_needed: bool,
    show_status_page: bool,
)
    ensures
        ({
            let commands = app.finish_update(
                Err(failure),
                perform_on_download_needed,
                show_status_page,
            ).1;
            &&& commands[0] == CommandView::ShowToast(
                toast_spec(
                    TextView::Phrase(Phrase::LauncherStateUpdatingError),
                    Some(TextView::Plain(failure)),
                ),
            )
            &&& commands[1] == CommandView::Send(AppMsgView::SetLauncherState(None))
            &&& forall|i: int|
                0 <= i < commands.len() ==> commands[i] != CommandView::Send(
                    AppMsgView::PerformAction,
                )
        }),
{
}

} // verus!
