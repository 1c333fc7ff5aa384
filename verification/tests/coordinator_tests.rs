use launcher_core::coordinator::{needs_assets, Coordinator, Event, Reaction, Stage, Task};
use launcher_core::error::{ActionError, ResolutionError, SyncError};
use launcher_core::message::{AppMsg, LauncherStyle};
use launcher_core::state::{Version, VersionDiff};
use launcher_core::sync::SyncFailure;
use launcher_core::text::{Phrase, Text};

fn mirrors(names: &[&str]) -> Vec<String> {
    let mut out = Vec::new();
    for name in names {
        out.push(String::from(*name));
    }
    out
}

fn status(phrase: Phrase) -> AppMsg {
    AppMsg::SetLoadingStatus(Some(Some(Text::Phrase(phrase))))
}

fn told(title: Phrase, description: &str) -> AppMsg {
    AppMsg::Toast {
        title: Text::Phrase(title),
        description: Some(Text::Plain(String::from(description))),
    }
}

fn resolve_request(perform: bool) -> AppMsg {
    AppMsg::UpdateLauncherState { perform_on_download_needed: perform, show_status_page: true }
}

fn diff() -> VersionDiff {
    VersionDiff {
        installed: Some(Version { major: 1, minor: 0, patch: 0 }),
        latest: Version { major: 1, minor: 1, patch: 0 },
        file_name: Some(String::from("patch.zip")),
    }
}

#[test]
fn background_is_fetched_for_the_classic_style_only() {
    assert!(needs_assets(LauncherStyle::Classic, false));
    assert!(!needs_assets(LauncherStyle::Classic, true));
    assert!(!needs_assets(LauncherStyle::Modern, false));
    assert!(!needs_assets(LauncherStyle::Modern, true));
}

#[test]
fn start_with_everything_in_order() {
    let coordinator = Coordinator::new(true, false, mirrors(&["A"]));
    assert_eq!(coordinator.stage(), Stage::Idle);
    assert!(!coordinator.ready());

    let (coordinator, reaction) = coordinator.step(Event::Start);
    assert_eq!(coordinator.stage(), Stage::FetchingAssets);
    assert_eq!(
        reaction,
        Reaction {
            messages: vec![status(Phrase::DownloadingBackgroundPicture)],
            task: Some(Task::FetchAssets),
        }
    );

    let (coordinator, reaction) = coordinator.step(Event::AssetsFetched(Ok(())));
    assert_eq!(coordinator.stage(), Stage::SyncingComponents);
    assert_eq!(
        reaction,
        Reaction {
            messages: vec![status(Phrase::UpdatingComponentsIndex)],
            task: Some(Task::CheckIndex),
        }
    );

    let (coordinator, reaction) = coordinator.step(Event::IndexChecked(Ok(Some(()))));
    assert_eq!(coordinator.stage(), Stage::CheckingGameVersion);
    assert_eq!(
        reaction,
        Reaction {
            messages: vec![status(Phrase::LoadingGameVersion)],
            task: Some(Task::FetchGameDiff),
        }
    );
    assert_eq!(coordinator.sync().source(), None);
    assert_eq!(coordinator.sync().failures(), vec![]);

    let (coordinator, reaction) = coordinator.step(Event::DiffFetched(Ok(diff())));
    assert_eq!(coordinator.stage(), Stage::ResolvingState);
    assert_eq!(
        reaction,
        Reaction {
            messages: vec![AppMsg::SetGameDiff(Some(diff())), resolve_request(false)],
            task: Some(Task::AwaitResolution),
        }
    );
    assert!(!coordinator.ready());

    let (coordinator, reaction) = coordinator.step(Event::StateResolved);
    assert_eq!(coordinator.stage(), Stage::Ready);
    assert!(coordinator.ready());
    assert_eq!(reaction, Reaction { messages: vec![], task: None });
}

#[test]
fn start_without_the_background_goes_to_the_components() {
    let (coordinator, reaction) = Coordinator::new(false, false, mirrors(&["A"])).step(Event::Start);
    assert_eq!(coordinator.stage(), Stage::SyncingComponents);
    assert_eq!(
        reaction,
        Reaction {
            messages: vec![status(Phrase::UpdatingComponentsIndex)],
            task: Some(Task::CheckIndex),
        }
    );
}

#[test]
fn mirrors_are_tried_until_one_succeeds() {
    let (coordinator, _) = Coordinator::new(false, false, mirrors(&["A", "B", "C"])).step(Event::Start);
    let (coordinator, reaction) = coordinator.step(Event::IndexChecked(Ok(None)));
    assert_eq!(coordinator.stage(), Stage::SyncingComponents);
    assert_eq!(reaction, Reaction { messages: vec![], task: Some(Task::Sync(String::from("A"))) });

    let (coordinator, reaction) =
        coordinator.step(Event::Synced(Err(SyncError { message: String::from("A is down") })));
    assert_eq!(
        reaction,
        Reaction {
            messages: vec![told(Phrase::ComponentsIndexSyncFailed, "A is down")],
            task: Some(Task::Sync(String::from("B"))),
        }
    );

    let (coordinator, reaction) =
        coordinator.step(Event::Synced(Err(SyncError { message: String::from("B is down") })));
    assert_eq!(
        reaction,
        Reaction {
            messages: vec![told(Phrase::ComponentsIndexSyncFailed, "B is down")],
            task: Some(Task::Sync(String::from("C"))),
        }
    );

    let changes = vec![String::from("added wine 8.2"), String::from("updated dxvk 2.1")];
    let (coordinator, reaction) = coordinator.step(Event::Synced(Ok(changes)));
    assert_eq!(coordinator.stage(), Stage::CheckingGameVersion);
    assert_eq!(
        reaction,
        Reaction {
            messages: vec![
                told(Phrase::ComponentsIndexUpdated, "- added wine 8.2\n- updated dxvk 2.1"),
                status(Phrase::LoadingGameVersion),
            ],
            task: Some(Task::FetchGameDiff),
        }
    );
    assert_eq!(coordinator.sync().source(), Some(String::from("C")));
    assert_eq!(
        coordinator.sync().failures(),
        vec![
            SyncFailure {
                mirror: String::from("A"),
                error: SyncError { message: String::from("A is down") },
            },
            SyncFailure {
                mirror: String::from("B"),
                error: SyncError { message: String::from("B is down") },
            },
        ]
    );
}

#[test]
fn syncing_again_with_nothing_new_reports_no_change() {
    let (coordinator, _) = Coordinator::new(false, false, mirrors(&["A"])).step(Event::Start);
    let (coordinator, _) = coordinator.step(Event::IndexChecked(Ok(None)));
    let (coordinator, reaction) = coordinator.step(Event::Synced(Ok(vec![])));
    assert_eq!(coordinator.stage(), Stage::CheckingGameVersion);
    assert_eq!(
        reaction,
        Reaction {
            messages: vec![
                AppMsg::Toast {
                    title: Text::Phrase(Phrase::ComponentsIndexUpdated),
                    description: None,
                },
                status(Phrase::LoadingGameVersion),
            ],
            task: Some(Task::FetchGameDiff),
        }
    );
    assert_eq!(coordinator.sync().source(), Some(String::from("A")));
    assert_eq!(coordinator.sync().changes(), Some(vec![]));
}

#[test]
fn failures_do_not_stop_the_work() {
    let coordinator = Coordinator::new(true, true, mirrors(&["A"]));
    let (coordinator, _) = coordinator.step(Event::Start);

    let (coordinator, reaction) = coordinator
        .step(Event::AssetsFetched(Err(ActionError { message: String::from("no network") })));
    assert_eq!(
        reaction,
        Reaction {
            messages: vec![
                told(Phrase::BackgroundDownloadingFailed, "no network"),
                status(Phrase::UpdatingComponentsIndex),
            ],
            task: Some(Task::CheckIndex),
        }
    );

    let (coordinator, reaction) = coordinator
        .step(Event::IndexChecked(Err(SyncError { message: String::from("index is broken") })));
    assert_eq!(
        reaction,
        Reaction {
            messages: vec![
                told(Phrase::ComponentsIndexVerifyFailed, "index is broken"),
                status(Phrase::LoadingGameVersion),
            ],
            task: Some(Task::FetchGameDiff),
        }
    );

    let (coordinator, reaction) = coordinator
        .step(Event::DiffFetched(Err(ResolutionError { message: String::from("api is down") })));
    assert_eq!(
        reaction,
        Reaction {
            messages: vec![
                told(Phrase::GameDiffFindingError, "api is down"),
                AppMsg::SetGameDiff(None),
                resolve_request(true),
            ],
            task: Some(Task::AwaitResolution),
        }
    );

    let (coordinator, _) = coordinator.step(Event::StateResolved);
    assert!(coordinator.ready());
}

#[test]
fn last_mirror_failing_goes_on_to_the_game() {
    let (coordinator, _) = Coordinator::new(false, false, mirrors(&["A"])).step(Event::Start);
    let (coordinator, _) = coordinator.step(Event::IndexChecked(Ok(None)));
    let (coordinator, reaction) =
        coordinator.step(Event::Synced(Err(SyncError { message: String::from("A is down") })));
    assert_eq!(coordinator.stage(), Stage::CheckingGameVersion);
    assert_eq!(
        reaction,
        Reaction {
            messages: vec![
                told(Phrase::ComponentsIndexSyncFailed, "A is down"),
                status(Phrase::LoadingGameVersion),
            ],
            task: Some(Task::FetchGameDiff),
        }
    );
    assert_eq!(coordinator.sync().source(), None);
    assert_eq!(coordinator.sync().failures().len(), 1);
}

#[test]
fn stale_index_without_mirrors_is_left_alone() {
    let (coordinator, _) = Coordinator::new(false, false, vec![]).step(Event::Start);
    let (coordinator, reaction) = coordinator.step(Event::IndexChecked(Ok(None)));
    assert_eq!(coordinator.stage(), Stage::CheckingGameVersion);
    assert_eq!(
        reaction,
        Reaction {
            messages: vec![status(Phrase::LoadingGameVersion)],
            task: Some(Task::FetchGameDiff),
        }
    );
}

#[test]
fn events_that_are_not_awaited_change_nothing() {
    let coordinator = Coordinator::new(true, false, mirrors(&["A"]));
    let (coordinator, reaction) = coordinator.step(Event::StateResolved);
    assert_eq!(coordinator.stage(), Stage::Idle);
    assert_eq!(reaction, Reaction { messages: vec![], task: None });

    let (coordinator, _) = coordinator.step(Event::Start);
    let (coordinator, reaction) = coordinator.step(Event::Start);
    assert_eq!(coordinator.stage(), Stage::FetchingAssets);
    assert_eq!(reaction, Reaction { messages: vec![], task: None });
    let (coordinator, reaction) = coordinator.step(Event::Synced(Ok(vec![])));
    assert_eq!(coordinator.stage(), Stage::FetchingAssets);
    assert_eq!(reaction, Reaction { messages: vec![], task: None });
    let (coordinator, reaction) = coordinator.step(Event::DiffFetched(Ok(diff())));
    assert_eq!(coordinator.stage(), Stage::FetchingAssets);
    assert_eq!(reaction, Reaction { messages: vec![], task: None });
}

#[test]
fn ready_coordinator_stays_ready() {
    let (coordinator, _) = Coordinator::new(false, false, vec![]).step(Event::Start);
    let (coordinator, _) = coordinator.step(Event::IndexChecked(Ok(Some(()))));
    let (coordinator, _) = coordinator.step(Event::DiffFetched(Ok(diff())));
    let (coordinator, _) = coordinator.step(Event::StateResolved);
    assert!(coordinator.ready());
    let (coordinator, reaction) = coordinator.step(Event::Start);
    assert!(coordinator.ready());
    assert_eq!(reaction, Reaction { messages: vec![], task: None });
    let (coordinator, reaction) = coordinator.step(Event::StateResolved);
    assert!(coordinator.ready());
    assert_eq!(reaction, Reaction { messages: vec![], task: None });
}
