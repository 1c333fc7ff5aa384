use launcher_core::app::{
    action_finished, default_size, game_folder, on_close, open_failed, resolution_progress, App,
    Command, DialogResponse, OpenTarget, Toast,
};
use launcher_core::dispatch::{dispatch, transfer, Action, Capability, Transfer};
use launcher_core::error::{ActionError, ConfigError, ResolutionError};
use launcher_core::message::{AppMsg, LauncherStyle};
use launcher_core::resolver::{resolve, FontProbe, Probes};
use launcher_core::state::{FontId, LauncherState, StateUpdating, Version, VersionDiff};
use launcher_core::text::{Phrase, Text};

fn plain(text: &str) -> Text {
    Text::Plain(String::from(text))
}

fn fresh_install() -> VersionDiff {
    VersionDiff {
        installed: None,
        latest: Version { major: 2, minor: 1, patch: 0 },
        file_name: Some(String::from("game_2.1.0.zip")),
    }
}

fn update() -> VersionDiff {
    VersionDiff {
        installed: Some(Version { major: 2, minor: 0, patch: 0 }),
        latest: Version { major: 2, minor: 1, patch: 0 },
        file_name: Some(String::from("game_2.0.0_2.1.0.zip")),
    }
}

fn up_to_date() -> VersionDiff {
    VersionDiff {
        installed: Some(Version { major: 2, minor: 1, patch: 0 }),
        latest: Version { major: 2, minor: 1, patch: 0 },
        file_name: None,
    }
}

fn probes(runtime: bool, prefix: bool, redistributable: bool, fonts_present: bool) -> Probes {
    Probes {
        runtime: Ok(runtime),
        prefix: Ok(prefix),
        redistributable: Ok(redistributable),
        fonts: vec![FontProbe { font: FontId(1), outcome: Ok(fonts_present) }],
    }
}

fn rerun() -> Vec<AppMsg> {
    vec![AppMsg::UpdateLauncherState { perform_on_download_needed: false, show_status_page: true }]
}

#[test]
fn model_starts_on_the_status_page() {
    let app = App::new(LauncherStyle::Classic);
    assert_eq!(
        app,
        App {
            loading: Some(None),
            style: LauncherStyle::Classic,
            state: None,
            downloading: false,
            disabled_buttons: false,
        }
    );
    assert!(!app.action_enabled());
}

#[test]
fn status_is_set_and_cleared_in_the_order_sent() {
    let mut app = App::new(LauncherStyle::Modern);
    assert_eq!(app.update(AppMsg::SetLoadingStatus(Some(Some(plain("x"))))), vec![]);
    assert_eq!(app.loading, Some(Some(plain("x"))));
    assert_eq!(app.update(AppMsg::SetLoadingStatus(None)), vec![]);
    assert_eq!(app.loading, None);
}

#[test]
fn batch_is_taken_in_the_order_sent() {
    let mut app = App::new(LauncherStyle::Modern);
    let commands = app.update_all(vec![
        AppMsg::SetLoadingStatus(Some(Some(plain("x")))),
        AppMsg::ShowWindow,
        AppMsg::SetLoadingStatus(None),
        AppMsg::HideWindow,
    ]);
    assert_eq!(app.loading, None);
    assert_eq!(commands, vec![Command::ShowWindow, Command::HideWindow]);

    let mut other = App::new(LauncherStyle::Modern);
    other.update_all(vec![
        AppMsg::SetLoadingStatus(None),
        AppMsg::SetLoadingStatus(Some(Some(plain("x")))),
    ]);
    assert_eq!(other.loading, Some(Some(plain("x"))));
    assert_eq!(other.update_all(vec![]), vec![]);
}

#[test]
fn duplicates_leave_the_model_as_it_is() {
    let mut app = App::new(LauncherStyle::Modern);
    app.update(AppMsg::SetLoadingStatus(None));
    let once = App {
        loading: None,
        style: LauncherStyle::Modern,
        state: None,
        downloading: false,
        disabled_buttons: false,
    };
    assert_eq!(app, once);
    app.update(AppMsg::SetLoadingStatus(None));
    assert_eq!(app, once);

    let toast = AppMsg::Toast { title: plain("t"), description: None };
    let shown = app.update(toast);
    assert_eq!(shown, vec![Command::ShowToast(Toast { title: plain("t"), timeout: 4, details: None })]);
    assert_eq!(app, once);
    app.update(AppMsg::Toast { title: plain("t"), description: None });
    assert_eq!(app, once);
}

#[test]
fn setters_set_their_part() {
    let mut app = App::new(LauncherStyle::Modern);
    assert_eq!(app.update(AppMsg::SetLauncherState(Some(LauncherState::Launch))), vec![]);
    assert_eq!(app.state, Some(LauncherState::Launch));
    assert!(app.action_enabled());
    assert_eq!(app.update(AppMsg::SetLauncherStyle(LauncherStyle::Classic)), vec![]);
    assert_eq!(app.style, LauncherStyle::Classic);
    assert_eq!(app.update(AppMsg::SetDownloading(true)), vec![]);
    assert!(app.downloading);
    assert_eq!(app.update(AppMsg::DisableButtons(true)), vec![]);
    assert!(app.disabled_buttons);
    assert!(!app.action_enabled());
    assert_eq!(app.update(AppMsg::SetLauncherState(None)), vec![]);
    assert_eq!(app.state, None);
}

#[test]
fn requests_are_passed_on() {
    let mut app = App::new(LauncherStyle::Modern);
    let before = App::new(LauncherStyle::Modern);
    assert_eq!(app.update(AppMsg::OpenPreferences), vec![Command::PresentPreferences]);
    assert_eq!(app.update(AppMsg::RepairGame), vec![Command::RepairGame]);
    assert_eq!(app.update(AppMsg::HideWindow), vec![Command::HideWindow]);
    assert_eq!(app.update(AppMsg::ShowWindow), vec![Command::ShowWindow]);
    assert_eq!(
        app.update(AppMsg::SetGameDiff(Some(update()))),
        vec![Command::ForwardGameDiff(Some(update()))]
    );
    assert_eq!(app.update(AppMsg::SetGameDiff(None)), vec![Command::ForwardGameDiff(None)]);
    assert_eq!(app, before);
}

#[test]
fn action_is_performed_only_with_a_state() {
    let mut app = App::new(LauncherStyle::Modern);
    assert_eq!(app.update(AppMsg::PerformAction), vec![]);
    app.update(AppMsg::SetLauncherState(Some(LauncherState::PrefixNotExists)));
    assert_eq!(app.update(AppMsg::PerformAction), vec![Command::Perform(Action::CreatePrefix)]);
    assert_eq!(app.state, Some(LauncherState::PrefixNotExists));
}

#[test]
fn resolution_with_the_status_page() {
    let mut app = App::new(LauncherStyle::Modern);
    let commands = app.update(AppMsg::UpdateLauncherState {
        perform_on_download_needed: false,
        show_status_page: true,
    });
    assert_eq!(
        commands,
        vec![
            Command::Send(AppMsg::SetLoadingStatus(Some(Some(Text::Phrase(
                Phrase::LoadingLauncherState
            ))))),
            Command::Resolve { perform_on_download_needed: false, show_status_page: true },
        ]
    );
    assert!(!app.disabled_buttons);

    let commands = app.finish_update(Ok(LauncherState::GameNotInstalled(fresh_install())), false, true);
    assert_eq!(
        commands,
        vec![
            Command::Send(AppMsg::SetLauncherState(Some(LauncherState::GameNotInstalled(
                fresh_install()
            )))),
            Command::Send(AppMsg::SetLoadingStatus(None)),
        ]
    );
}

#[test]
fn resolution_without_the_status_page_disables_the_buttons() {
    let mut app = App::new(LauncherStyle::Modern);
    let commands = app.update(AppMsg::UpdateLauncherState {
        perform_on_download_needed: true,
        show_status_page: false,
    });
    assert_eq!(
        commands,
        vec![Command::Resolve { perform_on_download_needed: true, show_status_page: false }]
    );
    assert!(app.disabled_buttons);

    let commands = app.finish_update(Ok(LauncherState::GameUpdateAvailable(update())), true, false);
    assert!(!app.disabled_buttons);
    assert_eq!(
        commands,
        vec![
            Command::Send(AppMsg::SetLauncherState(Some(LauncherState::GameUpdateAvailable(
                update()
            )))),
            Command::Send(AppMsg::PerformAction),
        ]
    );
}

#[test]
fn action_is_chained_only_for_downloads() {
    let mut app = App::new(LauncherStyle::Modern);
    assert_eq!(
        app.finish_update(Ok(LauncherState::Launch), true, true),
        vec![
            Command::Send(AppMsg::SetLauncherState(Some(LauncherState::Launch))),
            Command::Send(AppMsg::SetLoadingStatus(None)),
        ]
    );
    assert_eq!(
        app.finish_update(Ok(LauncherState::WineNotInstalled), true, true),
        vec![
            Command::Send(AppMsg::SetLauncherState(Some(LauncherState::WineNotInstalled))),
            Command::Send(AppMsg::SetLoadingStatus(None)),
        ]
    );
    assert_eq!(
        app.finish_update(Ok(LauncherState::GameNotInstalled(fresh_install())), true, true),
        vec![
            Command::Send(AppMsg::SetLauncherState(Some(LauncherState::GameNotInstalled(
                fresh_install()
            )))),
            Command::Send(AppMsg::SetLoadingStatus(None)),
            Command::Send(AppMsg::PerformAction),
        ]
    );
}

#[test]
fn failed_resolution_leaves_no_state() {
    let mut app = App::new(LauncherStyle::Modern);
    app.update(AppMsg::SetLauncherState(Some(LauncherState::Launch)));
    let commands = app.finish_update(
        Err(ResolutionError { message: String::from("disk is gone") }),
        true,
        true,
    );
    assert_eq!(
        commands,
        vec![
            Command::ShowToast(Toast {
                title: Text::Phrase(Phrase::LauncherStateUpdatingError),
                timeout: 4,
                details: Some(plain("disk is gone")),
            }),
            Command::Send(AppMsg::SetLauncherState(None)),
            Command::Send(AppMsg::SetLoadingStatus(None)),
        ]
    );
    let mut sent = Vec::new();
    for command in commands {
        if let Command::Send(msg) = command {
            sent.push(msg);
        }
    }
    app.update_all(sent);
    assert_eq!(app.state, None);
    assert_eq!(app.loading, None);
    assert!(!app.action_enabled());
    assert_eq!(app.action_label(false), plain("..."));
}

#[test]
fn progress_is_shown_on_the_status_page_only() {
    assert_eq!(
        resolution_progress(true, StateUpdating::Components),
        Some(AppMsg::SetLoadingStatus(Some(Some(plain(
            "Loading launcher state: checking components"
        )))))
    );
    assert_eq!(
        resolution_progress(true, StateUpdating::Game),
        Some(AppMsg::SetLoadingStatus(Some(Some(Text::Phrase(Phrase::LoadingLauncherStateGame)))))
    );
    assert_eq!(resolution_progress(false, StateUpdating::Components), None);
    assert_eq!(resolution_progress(false, StateUpdating::Game), None);
}

#[test]
fn toast_has_details_only_with_a_description() {
    let app = App::new(LauncherStyle::Modern);
    let bare = app.toast(plain("done"), None);
    assert_eq!(bare, Toast { title: plain("done"), timeout: 4, details: None });
    assert_eq!(bare.button(), None);
    let full = app.toast(Text::Phrase(Phrase::ActionFailed), Some(plain("why")));
    assert_eq!(
        full,
        Toast { title: Text::Phrase(Phrase::ActionFailed), timeout: 4, details: Some(plain("why")) }
    );
    assert_eq!(full.button(), Some(Phrase::Details));
}

#[test]
fn dialog_saves_by_opening_the_debug_file() {
    assert_eq!(DialogResponse::Close.label(), Phrase::Close);
    assert_eq!(DialogResponse::Save.label(), Phrase::Save);
    assert!(DialogResponse::Save.suggested());
    assert!(!DialogResponse::Close.suggested());
    assert_eq!(DialogResponse::Save.opens(), Some(OpenTarget::DebugFile));
    assert_eq!(DialogResponse::Close.opens(), None);
}

#[test]
fn button_says_what_the_action_is() {
    let mut app = App::new(LauncherStyle::Modern);
    assert_eq!(app.action_label(true), plain("..."));
    app.state = Some(LauncherState::Launch);
    assert_eq!(app.action_label(false), Text::Phrase(Phrase::Launch));
    app.state = Some(LauncherState::WineNotInstalled);
    assert_eq!(app.action_label(false), Text::Phrase(Phrase::DownloadWine));
    app.state = Some(LauncherState::PrefixNotExists);
    assert_eq!(app.action_label(false), Text::Phrase(Phrase::CreatePrefix));
    app.state = Some(LauncherState::Mfc140NotInstalled);
    assert_eq!(app.action_label(false), plain("Install mfc140"));
    app.state = Some(LauncherState::CorefontsNotInstalled(vec![FontId(1)]));
    assert_eq!(app.action_label(false), plain("Install corefonts"));
    app.state = Some(LauncherState::GameNotInstalled(fresh_install()));
    assert_eq!(app.action_label(true), Text::Phrase(Phrase::Download));
    assert_eq!(app.resume_file(), None);
}

#[test]
fn button_shows_what_kind_of_action_it_is() {
    let mut app = App::new(LauncherStyle::Modern);
    assert_eq!(app.action_icon(), "window-close-symbolic");
    app.state = Some(LauncherState::Launch);
    assert_eq!(app.action_icon(), "media-playback-start-symbolic");
    app.state = Some(LauncherState::WineNotInstalled);
    assert_eq!(app.action_icon(), "document-save-symbolic");
    app.state = Some(LauncherState::GameUpdateAvailable(update()));
    assert_eq!(app.action_icon(), "document-save-symbolic");
}

#[test]
fn update_with_a_partial_file_resumes() {
    let mut app = App::new(LauncherStyle::Modern);
    let found = resolve(&probes(true, true, true, true), Some(update()));
    assert_eq!(found.outcome, Ok(LauncherState::GameUpdateAvailable(update())));
    app.state = found.outcome.ok();

    assert_eq!(app.resume_file(), Some(String::from("game_2.0.0_2.1.0.zip")));
    assert_eq!(app.action_label(true), Text::Phrase(Phrase::Resume));
    assert_eq!(app.action_label(false), Text::Phrase(Phrase::Update));
    assert_eq!(transfer(&update(), true), Transfer::Resume);
    assert_eq!(transfer(&update(), false), Transfer::Restart);
    assert_eq!(
        app.update(AppMsg::PerformAction),
        vec![Command::Perform(Action::DownloadOrUpdateGame(update()))]
    );
}

#[test]
fn update_without_a_file_name_starts_over() {
    let mut nameless = update();
    nameless.file_name = None;
    assert_eq!(transfer(&nameless, true), Transfer::Restart);
    let mut app = App::new(LauncherStyle::Modern);
    app.state = Some(LauncherState::GameUpdateAvailable(nameless));
    assert_eq!(app.resume_file(), None);
    assert_eq!(app.action_label(true), Text::Phrase(Phrase::Update));
}

#[test]
fn every_state_has_its_action() {
    assert_eq!(dispatch(&LauncherState::Launch), Action::Launch);
    assert_eq!(dispatch(&LauncherState::WineNotInstalled), Action::InstallRuntime);
    assert_eq!(dispatch(&LauncherState::PrefixNotExists), Action::CreatePrefix);
    assert_eq!(dispatch(&LauncherState::Mfc140NotInstalled), Action::InstallRedistributable);
    assert_eq!(
        dispatch(&LauncherState::CorefontsNotInstalled(vec![FontId(2), FontId(5)])),
        Action::InstallFonts(vec![FontId(2), FontId(5)])
    );
    assert_eq!(
        dispatch(&LauncherState::GameUpdateAvailable(update())),
        Action::DownloadOrUpdateGame(update())
    );
    assert_eq!(
        dispatch(&LauncherState::GameNotInstalled(fresh_install())),
        Action::DownloadOrUpdateGame(fresh_install())
    );
    assert_eq!(Action::Launch.capability(), Capability::Launch);
    assert_eq!(Action::InstallRuntime.capability(), Capability::InstallRuntime);
    assert_eq!(Action::CreatePrefix.capability(), Capability::CreatePrefix);
    assert_eq!(Action::InstallRedistributable.capability(), Capability::InstallRedistributable);
    assert_eq!(Action::InstallFonts(vec![]).capability(), Capability::InstallFonts);
    assert_eq!(
        Action::DownloadOrUpdateGame(update()).capability(),
        Capability::DownloadOrUpdateGame
    );
}

#[test]
fn ended_action_asks_for_a_new_resolution() {
    assert_eq!(
        action_finished(Ok(()), true, false),
        vec![AppMsg::UpdateLauncherState {
            perform_on_download_needed: true,
            show_status_page: false,
        }]
    );
    assert_eq!(
        action_finished(Err(ActionError { message: String::from("no space left") }), true, true),
        vec![AppMsg::Toast {
            title: Text::Phrase(Phrase::ActionFailed),
            description: Some(plain("no space left")),
        }]
    );
}

#[test]
fn fresh_machine_is_brought_to_launch() {
    let mut app = App::new(LauncherStyle::Modern);
    let diff = Some(fresh_install());

    // Nothing is installed: the runtime comes first.
    let found = resolve(&probes(false, false, true, true), diff.clone());
    assert_eq!(found.outcome, Ok(LauncherState::WineNotInstalled));
    for command in app.finish_update(found.outcome, false, true) {
        if let Command::Send(msg) = command {
            app.update(msg);
        }
    }
    assert_eq!(app.update(AppMsg::PerformAction), vec![Command::Perform(Action::InstallRuntime)]);
    assert_eq!(action_finished(Ok(()), false, true), rerun());

    // The runtime is there: the prefix is next.
    let found = resolve(&probes(true, false, true, true), diff.clone());
    assert_eq!(found.outcome, Ok(LauncherState::PrefixNotExists));
    for command in app.finish_update(found.outcome, false, true) {
        if let Command::Send(msg) = command {
            app.update(msg);
        }
    }
    assert_eq!(app.update(AppMsg::PerformAction), vec![Command::Perform(Action::CreatePrefix)]);
    assert_eq!(action_finished(Ok(()), false, true), rerun());

    // The prefix is there: the game is to be downloaded.
    let found = resolve(&probes(true, true, true, true), diff.clone());
    assert_eq!(found.outcome, Ok(LauncherState::GameNotInstalled(fresh_install())));
    assert!(!fresh_install().is_empty());
    for command in app.finish_update(found.outcome, false, true) {
        if let Command::Send(msg) = command {
            app.update(msg);
        }
    }
    assert_eq!(
        app.update(AppMsg::PerformAction),
        vec![Command::Perform(Action::DownloadOrUpdateGame(fresh_install()))]
    );
    assert_eq!(action_finished(Ok(()), false, true), rerun());

    // The game is there and current: it can start.
    let found = resolve(&probes(true, true, true, true), Some(up_to_date()));
    assert_eq!(found.outcome, Ok(LauncherState::Launch));
    for command in app.finish_update(found.outcome, false, true) {
        if let Command::Send(msg) = command {
            app.update(msg);
        }
    }
    assert_eq!(app.state, Some(LauncherState::Launch));
    assert_eq!(app.loading, None);
    assert_eq!(app.update(AppMsg::PerformAction), vec![Command::Perform(Action::Launch)]);
}

#[test]
fn menu_failures_are_told() {
    assert_eq!(
        open_failed(OpenTarget::LauncherFolder, String::from("no handler")),
        AppMsg::Toast {
            title: Text::Phrase(Phrase::LauncherFolderOpeningError),
            description: Some(plain("no handler")),
        }
    );
    assert_eq!(
        open_failed(OpenTarget::GameFolder, String::from("e")),
        AppMsg::Toast {
            title: Text::Phrase(Phrase::GameFolderOpeningError),
            description: Some(plain("e")),
        }
    );
    assert_eq!(
        open_failed(OpenTarget::ConfigFile, String::from("e")),
        AppMsg::Toast {
            title: Text::Phrase(Phrase::ConfigFileOpeningError),
            description: Some(plain("e")),
        }
    );
    assert_eq!(
        open_failed(OpenTarget::DebugFile, String::from("e")),
        AppMsg::Toast {
            title: Text::Phrase(Phrase::DebugFileOpeningError),
            description: Some(plain("e")),
        }
    );
}

#[test]
fn game_folder_falls_back_to_the_one_at_the_start() {
    assert_eq!(game_folder(Ok(String::from("/games/new")), String::from("/games/old")), "/games/new");
    assert_eq!(
        game_folder(Err(ConfigError { message: String::from("unreadable") }), String::from("/games/old")),
        "/games/old"
    );
}

#[test]
fn closing_reports_a_failed_flush() {
    assert_eq!(on_close(Ok(())), None);
    assert_eq!(
        on_close(Err(ConfigError { message: String::from("read-only") })),
        Some(AppMsg::Toast {
            title: Text::Phrase(Phrase::ConfigUpdateError),
            description: Some(plain("read-only")),
        })
    );
}

#[test]
fn window_size_follows_the_style() {
    assert_eq!(default_size(LauncherStyle::Modern), (900, 600));
    assert_eq!(default_size(LauncherStyle::Classic), (1094, 624));
}

#[test]
fn phrases_have_their_keys() {
    assert_eq!(Phrase::DownloadingBackgroundPicture.key(), "downloading-background-picture");
    assert_eq!(Phrase::BackgroundDownloadingFailed.key(), "background-downloading-failed");
    assert_eq!(Phrase::UpdatingComponentsIndex.key(), "updating-components-index");
    assert_eq!(Phrase::ComponentsIndexUpdated.key(), "components-index-updated");
    assert_eq!(Phrase::ComponentsIndexSyncFailed.key(), "components-index-sync-failed");
    assert_eq!(Phrase::ComponentsIndexVerifyFailed.key(), "components-index-verify-failed");
    assert_eq!(Phrase::LoadingGameVersion.key(), "loading-game-version");
    assert_eq!(Phrase::GameDiffFindingError.key(), "game-diff-finding-error");
    assert_eq!(Phrase::LoadingLauncherState.key(), "loading-launcher-state");
    assert_eq!(Phrase::LoadingLauncherStateGame.key(), "loading-launcher-state--game");
    assert_eq!(Phrase::LauncherStateUpdatingError.key(), "launcher-state-updating-error");
    assert_eq!(Phrase::ConfigUpdateError.key(), "config-update-error");
    assert_eq!(Phrase::LauncherFolderOpeningError.key(), "launcher-folder-opening-error");
    assert_eq!(Phrase::GameFolderOpeningError.key(), "game-folder-opening-error");
    assert_eq!(Phrase::ConfigFileOpeningError.key(), "config-file-opening-error");
    assert_eq!(Phrase::DebugFileOpeningError.key(), "debug-file-opening-error");
    assert_eq!(Phrase::ActionFailed.key(), "action-failed");
    assert_eq!(Phrase::Launch.key(), "launch");
    assert_eq!(Phrase::DownloadWine.key(), "download-wine");
    assert_eq!(Phrase::CreatePrefix.key(), "create-prefix");
    assert_eq!(Phrase::Resume.key(), "resume");
    assert_eq!(Phrase::Update.key(), "update");
    assert_eq!(Phrase::Download.key(), "download");
    assert_eq!(Phrase::Details.key(), "details");
    assert_eq!(Phrase::Close.key(), "close");
    assert_eq!(Phrase::Save.key(), "save");
}

#[test]
fn texts_and_messages_are_built() {
    assert_eq!(Text::plain("abc"), plain("abc"));
    assert_eq!(plain("abc").clone(), plain("abc"));
    assert_eq!(Text::Phrase(Phrase::Save).clone(), Text::Phrase(Phrase::Save));
    assert_eq!(
        AppMsg::status(Phrase::LoadingGameVersion),
        AppMsg::SetLoadingStatus(Some(Some(Text::Phrase(Phrase::LoadingGameVersion))))
    );
    assert_eq!(
        AppMsg::failure(Phrase::ActionFailed, String::from("why")),
        AppMsg::Toast { title: Text::Phrase(Phrase::ActionFailed), description: Some(plain("why")) }
    );
    let error = ActionError { message: String::from("m") };
    assert_eq!(error.clone(), error);
}
