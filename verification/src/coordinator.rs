//! The coordinator of the work that is done when the launcher starts.
//!
//! The work runs in a fixed order: the background picture is fetched where
//! one is wanted, the components index is brought up to date, the difference
//! to the latest game version is looked up, and the launcher state is
//! resolved. Before each piece of work the foreground is told what is going
//! on. A failure is told to the user and the work goes on with the next
//! piece: the coordinator always gets to the end. The work itself is done
//! outside: [`Coordinator::step`] takes what happened and answers with the
//! messages to send and the work to do next.

use vstd::prelude::*;
use crate::error::{ActionError, ResolutionError, SyncError};
use crate::message::{failure_msg, no_messages, send, status_msg, AppMsg, AppMsgView, LauncherStyle};
use crate::state::{VersionDiff, VersionDiffView};
use crate::sync::{attempt_view, summary, summary_spec, MirrorSync, MirrorSyncView};
use crate::text::{Phrase, Text, TextView};

verus! {

/// Whether the background picture is to be fetched: the classic style shows
/// one, and it is fetched unless a picture is kept on disk.
pub fn needs_assets(style: LauncherStyle, background_kept: bool) -> (needed: bool)
    ensures
        needed == (style == LauncherStyle::Classic && !background_kept),
{
    match style {
        LauncherStyle::Classic => !background_kept,
        LauncherStyle::Modern => false,
    }
}

/// Where the coordinator stands.
#[derive(Clone, Copy, Debug, PartialEq, Eq, Structural)]
pub enum Stage {
    Idle,
    FetchingAssets,
    SyncingComponents,
    CheckingGameVersion,
    ResolvingState,
    Ready,
}

impl Stage {
    /// The place of the stage in the order of the work.
    pub open spec fn rank(self) -> nat {
        match self {
            Stage::Idle => 0,
            Stage::FetchingAssets => 1,
            Stage::SyncingComponents => 2,
            Stage::CheckingGameVersion => 3,
            Stage::ResolvingState => 4,
            Stage::Ready => 5,
        }
    }
}

/// What the coordinator waits for. Syncing the components has two parts:
/// the check whether the index is current, and the attempts on the mirrors.
#[derive(Clone, Copy, Debug, PartialEq, Eq, Structural)]
pub enum Phase {
    Idle,
    FetchingAssets,
    CheckingIndex,
    Syncing,
    CheckingGameVersion,
    ResolvingState,
    Ready,
}

impl Phase {
    /// The stage that the phase belongs to.
    pub open spec fn stage(self) -> Stage {
        match self {
            Phase::Idle => Stage::Idle,
            Phase::FetchingAssets => Stage::FetchingAssets,
            Phase::CheckingIndex => Stage::SyncingComponents,
            Phase::Syncing => Stage::SyncingComponents,
            Phase::CheckingGameVersion => Stage::CheckingGameVersion,
            Phase::ResolvingState => Stage::ResolvingState,
            Phase::Ready => Stage::Ready,
        }
    }
}

/// Work to be done outside.
#[derive(Debug, PartialEq, Eq)]
pub enum Task {
    /// Fetch the background picture.
    FetchAssets,
    /// Check whether the components index is current with one of the
    /// mirrors.
    CheckIndex,
    /// Bring the components index up to date from this mirror.
    Sync(String),
    /// Look up the difference to the latest game version.
    FetchGameDiff,
    /// Wait until the foreground has resolved the launcher state.
    AwaitResolution,
}

/// What a [`Task`] stands for.
pub enum TaskView {
    FetchAssets,
    CheckIndex,
    Sync(Seq<char>),
    FetchGameDiff,
    AwaitResolution,
}

impl View for Task {
    type V = TaskView;

    open spec fn view(&self) -> TaskView {
        match self {
            Task::FetchAssets => TaskView::FetchAssets,
            Task::CheckIndex => TaskView::CheckIndex,
            Task::Sync(mirror) => TaskView::Sync(mirror@),
            Task::FetchGameDiff => TaskView::FetchGameDiff,
            Task::AwaitResolution => TaskView::AwaitResolution,
        }
    }
}

impl DeepView for Task {
    type V = TaskView;

    open spec fn deep_view(&self) -> TaskView {
        self@
    }
}

/// What happened outside.
#[derive(Debug, PartialEq, Eq)]
pub enum Event {
    /// The launcher has started.
    Start,
    /// The background picture was fetched, or could not be.
    AssetsFetched(Result<(), ActionError>),
    /// The components index was found current with a mirror (`Some`) or
    /// with none (`None`), or the check failed.
    IndexChecked(Result<Option<()>, SyncError>),
    /// The attempt on the pending mirror gave a change log, or failed.
    Synced(Result<Vec<String>, SyncError>),
    /// The difference to the latest game version was found, or could not be.
    DiffFetched(Result<VersionDiff, ResolutionError>),
    /// The foreground has resolved the launcher state.
    StateResolved,
}

/// What an [`Event`] stands for.
pub enum EventView {
    Start,
    /// The message of the failure, if the fetch failed.
    AssetsFetched(Option<Seq<char>>),
    /// Whether the index is current, or the message of the failure.
    IndexChecked(Result<bool, Seq<char>>),
    Synced(Result<Seq<Seq<char>>, Seq<char>>),
    DiffFetched(Result<VersionDiffView, Seq<char>>),
    StateResolved,
}

impl View for Event {
    type V = EventView;

    open spec fn view(&self) -> EventView {
        match self {
            Event::Start => EventView::Start,
            Event::AssetsFetched(fetched) => EventView::AssetsFetched(
                match fetched {
                    Ok(_) => None,
                    Err(e) => Some(e@),
                },
            ),
            Event::IndexChecked(checked) => EventView::IndexChecked(
                match checked {
                    Ok(current) => Ok(current is Some),
                    Err(e) => Err(e@),
                },
            ),
            Event::Synced(outcome) => EventView::Synced(attempt_view(*outcome)),
            Event::DiffFetched(found) => EventView::DiffFetched(
                match found {
                    Ok(diff) => Ok(diff@),
                    Err(e) => Err(e@),
                },
            ),
            Event::StateResolved => EventView::StateResolved,
        }
    }
}

/// What the coordinator asks for after an event.
#[derive(Debug, PartialEq, Eq)]
pub struct Reaction {
    /// The messages to send to the foreground, in this order.
    pub messages: Vec<AppMsg>,
    /// The work to do next, once the messages are sent.
    pub task: Option<Task>,
}

/// What a [`Reaction`] stands for.
pub struct ReactionView {
    pub messages: Seq<AppMsgView>,
    pub task: Option<TaskView>,
}

impl View for Reaction {
    type V = ReactionView;

    open spec fn view(&self) -> ReactionView {
        ReactionView { messages: self.messages.deep_view(), task: self.task.deep_view() }
    }
}

impl ReactionView {
    /// No message and no work.
    pub open spec fn nothing() -> ReactionView {
        ReactionView { messages: Seq::empty(), task: None }
    }
}

/// The notification that the components index was brought up to date, with
/// the summary of the change log as its description.
pub open spec fn updated_msg(changes: Seq<Seq<char>>) -> AppMsgView {
    AppMsgView::Toast {
        title: TextView::Phrase(Phrase::ComponentsIndexUpdated),
        description: match summary_spec(changes) {
            Some(text) => Some(TextView::Plain(text)),
            None => None,
        },
    }
}

/// What a [`Coordinator`] stands for.
pub struct CoordinatorView {
    /// Whether the background picture is fetched first.
    pub fetch_assets: bool,
    /// Whether the action of the resolved state is performed at once when
    /// the state asks for a download.
    pub auto_continue: bool,
    pub phase: Phase,
    pub sync: MirrorSyncView,
}

impl CoordinatorView {
    /// While the mirrors are tried, one is pending; before they are tried,
    /// none has been.
    pub open spec fn wf(self) -> bool {
        &&& self.sync.wf()
        &&& self.phase == Phase::Syncing ==> self.sync.pending() is Some
        &&& self.phase == Phase::Idle || self.phase == Phase::FetchingAssets || self.phase
            == Phase::CheckingIndex ==> self.sync.failures.len() == 0 && self.sync.changes is None
    }

    /// The coordinator before the launcher has started.
    pub open spec fn initial(
        fetch_assets: bool,
        auto_continue: bool,
        mirrors: Seq<Seq<char>>,
    ) -> CoordinatorView {
        CoordinatorView {
            fetch_assets,
            auto_continue,
            phase: Phase::Idle,
            sync: MirrorSyncView::begin(mirrors),
        }
    }

    /// Where the coordinator stands.
    pub open spec fn stage(self) -> Stage {
        self.phase.stage()
    }

    /// Whether the work is done.
    pub open spec fn ready(self) -> bool {
        self.phase == Phase::Ready
    }

    /// Whether `event` is what the coordinator waits for.
    pub open spec fn expects(self, event: EventView) -> bool {
        match self.phase {
            Phase::Idle => event is Start,
            Phase::FetchingAssets => event is AssetsFetched,
            Phase::CheckingIndex => event is IndexChecked,
            Phase::Syncing => event is Synced,
            Phase::CheckingGameVersion => event is DiffFetched,
            Phase::ResolvingState => event is StateResolved,
            Phase::Ready => false,
        }
    }

    /// An upper bound on the events that the coordinator still waits for.
    pub open spec fn distance(self) -> nat {
        match self.phase {
            Phase::Idle => self.sync.mirrors.len() + 6,
            Phase::FetchingAssets => self.sync.mirrors.len() + 5,
            Phase::CheckingIndex => self.sync.mirrors.len() + 4,
            Phase::Syncing => self.sync.remaining() + 3,
            Phase::CheckingGameVersion => 2,
            Phase::ResolvingState => 1,
            Phase::Ready => 0,
        }
    }

    /// The coordinator in another phase.
    pub open spec fn at(self, phase: Phase) -> CoordinatorView {
        CoordinatorView { phase, ..self }
    }

    /// The components are next: the foreground is told, and the index is
    /// to be checked.
    pub open spec fn enter_sync(self, told: Seq<AppMsgView>) -> (CoordinatorView, ReactionView) {
        (
            self.at(Phase::CheckingIndex),
            ReactionView {
                messages: told.push(status_msg(Phrase::UpdatingComponentsIndex)),
                task: Some(TaskView::CheckIndex),
            },
        )
    }

    /// The game version is next: the foreground is told, and the
    /// difference is to be looked up.
    pub open spec fn enter_game(self, told: Seq<AppMsgView>) -> (CoordinatorView, ReactionView) {
        (
            self.at(Phase::CheckingGameVersion),
            ReactionView {
                messages: told.push(status_msg(Phrase::LoadingGameVersion)),
                task: Some(TaskView::FetchGameDiff),
            },
        )
    }

    /// The coordinator after an event, and what it asks for.
    ///
    /// An event that the coordinator does not wait for changes nothing and
    /// asks for nothing. Of the others:
    /// - at the start the background picture is fetched, if it is wanted, and
    ///   else the components are next;
    /// - after the picture the components are next, whether it was fetched
    ///   or not;
    /// - an index that is current, or that could not be checked, or for
    ///   which no mirror is configured, is left as it is, and the game
    ///   version is next; else the first mirror is tried;
    /// - a mirror that succeeds ends the attempts, and the user is told what
    ///   changed; after one that fails the next mirror is tried, and after
    ///   the last one the game version is next;
    /// - the difference, or that there is none, is sent to the foreground,
    ///   which is then asked to resolve the launcher state;
    /// - when that is done, the coordinator is ready.
    /// Every failure is told to the user before anything else is sent.
    pub open spec fn step(self, event: EventView) -> (CoordinatorView, ReactionView) {
        match (self.phase, event) {
            (Phase::Idle, EventView::Start) => if self.fetch_assets {
                (
                    self.at(Phase::FetchingAssets),
                    ReactionView {
                        messages: seq![status_msg(Phrase::DownloadingBackgroundPicture)],
                        task: Some(TaskView::FetchAssets),
                    },
                )
            } else {
                self.enter_sync(Seq::empty())
            },
            (Phase::FetchingAssets, EventView::AssetsFetched(failure)) => match failure {
                Some(e) => self.enter_sync(seq![failure_msg(Phrase::BackgroundDownloadingFailed, e)]),
                None => self.enter_sync(Seq::empty()),
            },
            (Phase::CheckingIndex, EventView::IndexChecked(checked)) => match checked {
                Ok(true) => self.enter_game(Seq::empty()),
                Ok(false) => match self.sync.pending() {
                    Some(mirror) => (
                        self.at(Phase::Syncing),
                        ReactionView { messages: Seq::empty(), task: Some(TaskView::Sync(mirror)) },
                    ),
                    None => self.enter_game(Seq::empty()),
                },
                Err(e) => self.enter_game(seq![failure_msg(Phrase::ComponentsIndexVerifyFailed, e)]),
            },
            (Phase::Syncing, EventView::Synced(outcome)) => {
                let then = CoordinatorView { sync: self.sync.record(outcome), ..self };
                match outcome {
                    Ok(changes) => then.enter_game(seq![updated_msg(changes)]),
                    Err(e) => {
                        let told = seq![failure_msg(Phrase::ComponentsIndexSyncFailed, e)];
                        match then.sync.pending() {
                            Some(mirror) => (
                                then,
                                ReactionView { messages: told, task: Some(TaskView::Sync(mirror)) },
                            ),
                            None => then.enter_game(told),
                        }
                    },
                }
            },
            (Phase::CheckingGameVersion, EventView::DiffFetched(found)) => {
                let told = match found {
                    Ok(diff) => seq![AppMsgView::SetGameDiff(Some(diff))],
                    Err(e) => seq![
                        failure_msg(Phrase::GameDiffFindingError, e),
                        AppMsgView::SetGameDiff(None),
                    ],
                };
                (
                    self.at(Phase::ResolvingState),
                    ReactionView {
                        messages: told.push(
                            AppMsgView::UpdateLauncherState {
                                perform_on_download_needed: self.auto_continue,
                                show_status_page: true,
                            },
                        ),
                        task: Some(TaskView::AwaitResolution),
                    },
                )
            },
            (Phase::ResolvingState, EventView::StateResolved) => (
                self.at(Phase::Ready),
                ReactionView::nothing(),
            ),
            _ => (self, ReactionView::nothing()),
        }
    }
}

impl CoordinatorView {
    /// The coordinator after one event after the other.
    pub open spec fn run(self, events: Seq<EventView>) -> CoordinatorView
        decreases events.len(),
    {
        if events.len() == 0 {
            self
        } else {
            self.step(events[0]).0.run(events.drop_first())
        }
    }

    /// Whether each of the events, in their order, is the one that the
    /// coordinator waits for when it arrives, as long as it waits for any.
    pub open spec fn answered_by(self, events: Seq<EventView>) -> bool
        decreases events.len(),
    {
        events.len() == 0 || self.ready() || (self.expects(events[0]) && self.step(
            events[0],
        ).0.answered_by(events.drop_first()))
    }
}

/// The coordinator of the work at the start of the launcher.
pub struct Coordinator {
    fetch_assets: bool,
    auto_continue: bool,
    phase: Phase,
    sync: MirrorSync,
}

impl View for Coordinator {
    type V = CoordinatorView;

    closed spec fn view(&self) -> CoordinatorView {
        CoordinatorView {
            fetch_assets: self.fetch_assets,
            auto_continue: self.auto_continue,
            phase: self.phase,
            sync: self.sync@,
        }
    }
}

impl Coordinator {
    #[verifier::type_invariant]
    spec fn inv(self) -> bool {
        self@.wf()
    }

    /// The coordinator before the launcher has started. `mirrors` are the
    /// mirrors of the components index in the order of their priority.
    pub fn new(fetch_assets: bool, auto_continue: bool, mirrors: Vec<String>) -> (coordinator:
        Coordinator)
        ensures
            coordinator@ == CoordinatorView::initial(
                fetch_assets,
                auto_continue,
                mirrors.deep_view(),
            ),
            coordinator@.wf(),
    {
        Coordinator { fetch_assets, auto_continue, phase: Phase::Idle, sync: MirrorSync::begin(mirrors) }
    }

    /// Where the coordinator stands.
    pub fn stage(&self) -> (stage: Stage)
        ensures
            stage == self@.stage(),
    {
        match self.phase {
            Phase::Idle => Stage::Idle,
            Phase::FetchingAssets => Stage::FetchingAssets,
            Phase::CheckingIndex => Stage::SyncingComponents,
            Phase::Syncing => Stage::SyncingComponents,
            Phase::CheckingGameVersion => Stage::CheckingGameVersion,
            Phase::ResolvingState => Stage::ResolvingState,
            Phase::Ready => Stage::Ready,
        }
    }

    /// Whether the work is done. This is the one sign that the launcher is
    /// through with its start.
    pub fn ready(&self) -> (ready: bool)
        ensures
            ready == self@.ready(),
    {
        match self.phase {
            Phase::Ready => true,
            _ => false,
        }
    }

    /// The attempts on the mirrors so far.
    pub fn sync(&self) -> (sync: &MirrorSync)
        ensures
            sync@ == self@.sync,
    {
        &self.sync
    }

    fn enter_sync(
        fetch_assets: bool,
        auto_continue: bool,
        sync: MirrorSync,
        told: Vec<AppMsg>,
    ) -> (then: (Coordinator, Reaction))
        requires
            sync@.failures.len() == 0,
            sync@.changes is None,
        ensures
            then.0@ == (CoordinatorView {
                fetch_assets,
                auto_continue,
                phase: Phase::CheckingIndex,
                sync: sync@,
            }),
            then.1@.messages == told.deep_view().push(status_msg(Phrase::UpdatingComponentsIndex)),
            then.1@.task == Some(TaskView::CheckIndex),
    {
        proof {
            use_type_invariant(&sync);
        }
        let mut messages = told;
        send(&mut messages, AppMsg::status(Phrase::UpdatingComponentsIndex));
        (
            Coordinator { fetch_assets, auto_continue, phase: Phase::CheckingIndex, sync },
            Reaction { messages, task: Some(Task::CheckIndex) },
        )
    }

    fn enter_game(
        fetch_assets: bool,
        auto_continue: bool,
        sync: MirrorSync,
        told: Vec<AppMsg>,
    ) -> (then: (Coordinator, Reaction))
        ensures
            then.0@ == (CoordinatorView {
                fetch_assets,
                auto_continue,
                phase: Phase::CheckingGameVersion,
                sync: sync@,
            }),
            then.1@.messages == told.deep_view().push(status_msg(Phrase::LoadingGameVersion)),
            then.1@.task == Some(TaskView::FetchGameDiff),
    {
        proof {
            use_type_invariant(&sync);
        }
        let mut messages = told;
        send(&mut messages, AppMsg::status(Phrase::LoadingGameVersion));
        (
            Coordinator { fetch_assets, auto_continue, phase: Phase::CheckingGameVersion, sync },
            Reaction { messages, task: Some(Task::FetchGameDiff) },
        )
    }

    fn ignore(self) -> (then: (Coordinator, Reaction))
        ensures
            then.0@ == self@,
            then.1@.messages == Seq::<AppMsgView>::empty(),
            then.1@.task is None,
    {
        (self, Reaction { messages: no_messages(), task: None })
    }

    /// Takes what happened and gives the coordinator after it, the messages
    /// to send and the work to do next.
    pub fn step(self, event: Event) -> (then: (Coordinator, Reaction))
        ensures
            self@.wf(),
            then.0@.wf(),
            then.0@ == self@.step(event@).0,
            then.1@.messages == self@.step(event@).1.messages,
            then.1@.task == self@.step(event@).1.task,
    {
        proof {
            use_type_invariant(&self);
        }
        match self.phase {
            Phase::Idle => match event {
                Event::Start => {
                    let Coordinator { fetch_assets, auto_continue, phase: _, sync } = self;
                    if fetch_assets {
                        proof {
                            use_type_invariant(&sync);
                        }
                        let mut messages = no_messages();
                        send(&mut messages, AppMsg::status(Phrase::DownloadingBackgroundPicture));
                        (
                            Coordinator {
                                fetch_assets,
                                auto_continue,
                                phase: Phase::FetchingAssets,
                                sync,
                            },
                            Reaction { messages, task: Some(Task::FetchAssets) },
                        )
                    } else {
                        Coordinator::enter_sync(fetch_assets, auto_continue, sync, no_messages())
                    }
                },
                _ => self.ignore(),
            },
            Phase::FetchingAssets => match event {
                Event::AssetsFetched(fetched) => {
                    let Coordinator { fetch_assets, auto_continue, phase: _, sync } = self;
                    let mut told = no_messages();
                    match fetched {
                        Ok(_) => {},
                        Err(e) => {
                            send(
                                &mut told,
                                AppMsg::failure(Phrase::BackgroundDownloadingFailed, e.message),
                            );
                        },
                    }
                    Coordinator::enter_sync(fetch_assets, auto_continue, sync, told)
                },
                _ => self.ignore(),
            },
            Phase::CheckingIndex => match event {
                Event::IndexChecked(checked) => {
                    let Coordinator { fetch_assets, auto_continue, phase: _, sync } = self;
                    match checked {
                        Ok(Some(_)) => Coordinator::enter_game(
                            fetch_assets,
                            auto_continue,
                            sync,
                            no_messages(),
                        ),
                        Ok(None) => match sync.pending() {
                            Some(mirror) => (
                                Coordinator {
                                    fetch_assets,
                                    auto_continue,
                                    phase: Phase::Syncing,
                                    sync,
                                },
                                Reaction { messages: no_messages(), task: Some(Task::Sync(mirror)) },
                            ),
                            None => Coordinator::enter_game(
                                fetch_assets,
                                auto_continue,
                                sync,
                                no_messages(),
                            ),
                        },
                        Err(e) => {
                            let mut told = no_messages();
                            send(
                                &mut told,
                                AppMsg::failure(Phrase::ComponentsIndexVerifyFailed, e.message),
                            );
                            Coordinator::enter_game(fetch_assets, auto_continue, sync, told)
                        },
                    }
                },
                _ => self.ignore(),
            },
            Phase::Syncing => match event {
                Event::Synced(outcome) => {
                    let Coordinator { fetch_assets, auto_continue, phase: _, sync } = self;
                    let mut told = no_messages();
                    match outcome {
                        Ok(changes) => {
                            let description = match summary(&changes) {
                                Some(text) => Some(Text::Plain(text)),
                                None => None,
                            };
                            send(
                                &mut told,
                                AppMsg::Toast {
                                    title: Text::Phrase(Phrase::ComponentsIndexUpdated),
                                    description,
                                },
                            );
                            let sync = sync.record(Ok(changes));
                            Coordinator::enter_game(fetch_assets, auto_continue, sync, told)
                        },
                        Err(e) => {
                            send(
                                &mut told,
                                AppMsg::failure(
                                    Phrase::ComponentsIndexSyncFailed,
                                    e.message.clone(),
                                ),
                            );
                            let sync = sync.record(Err(e));
                            match sync.pending() {
                                Some(mirror) => (
                                    Coordinator {
                                        fetch_assets,
                                        auto_continue,
                                        phase: Phase::Syncing,
                                        sync,
                                    },
                                    Reaction { messages: told, task: Some(Task::Sync(mirror)) },
                                ),
                                None => Coordinator::enter_game(
                                    fetch_assets,
                                    auto_continue,
                                    sync,
                                    told,
                                ),
                            }
                        },
                    }
                },
                _ => self.ignore(),
            },
            Phase::CheckingGameVersion => match event {
                Event::DiffFetched(found) => {
                    let Coordinator { fetch_assets, auto_continue, phase: _, sync } = self;
                    proof {
                        use_type_invariant(&sync);
                    }
                    let mut messages = no_messages();
                    match found {
                        Ok(diff) => {
                            send(&mut messages, AppMsg::SetGameDiff(Some(diff)));
                        },
                        Err(e) => {
                            send(
                                &mut messages,
                                AppMsg::failure(Phrase::GameDiffFindingError, e.message),
                            );
                            send(&mut messages, AppMsg::SetGameDiff(None));
                        },
                    }
                    send(
                        &mut messages,
                        AppMsg::UpdateLauncherState {
                            perform_on_download_needed: auto_continue,
                            show_status_page: true,
                        },
                    );
                    (
                        Coordinator {
                            fetch_assets,
                            auto_continue,
                            phase: Phase::ResolvingState,
                            sync,
                        },
                        Reaction { messages, task: Some(Task::AwaitResolution) },
                    )
                },
                _ => self.ignore(),
            },
            Phase::ResolvingState => match event {
                Event::StateResolved => {
                    let Coordinator { fetch_assets, auto_continue, phase: _, sync } = self;
                    proof {
                        use_type_invariant(&sync);
                    }
                    (
                        Coordinator { fetch_assets, auto_continue, phase: Phase::Ready, sync },
                        Reaction { messages: no_messages(), task: None },
                    )
                },
                _ => self.ignore(),
            },
            Phase::Ready => self.ignore(),
        }
    }
}

// ----------------------------------------------------------------------
// What holds of every run
// ----------------------------------------------------------------------

/// The coordinator always gets to the end. As long as it is not ready it
/// waits for an event; whatever that event brings, a success or a failure,
/// the coordinator takes it and comes closer to being ready, and it is
/// ready exactly when nothing is left to wait for.
pub proof fn lemma_always_reaches_ready(coordinator: CoordinatorView, event: EventView)
    requires
        coordinator.wf(),
        coordinator.expects(event),
    ensures
        coordinator.step(event).0.wf(),
        coordinator.step(event).0.distance() < coordinator.distance(),
        coordinator.step(event).0.ready() <==> coordinator.step(event).0.distance() == 0,
        !coordinator.step(event).0.ready() ==> coordinator.step(event).1.task is Some,
{
}

/// However the work goes, it ends: when the coordinator is given the event
/// that it waits for, again and again, it is ready after no more events
/// than its distance says, whatever the events bring, and it stays ready.
pub proof fn lemma_run_ends_ready(coordinator: CoordinatorView, events: Seq<EventView>)
    requires
        coordinator.wf(),
        coordinator.answered_by(events),
        events.len() >= coordinator.distance(),
    ensures
        coordinator.run(events).ready(),
        coordinator.run(events).wf(),
    decreases events.len(),
{
    if events.len() > 0 {
        let then = coordinator.step(events[0]).0;
        if coordinator.ready() {
            lemma_never_goes_back(coordinator, events[0]);
            assert(then == coordinator);
            assert(then.answered_by(events.drop_first()));
        } else {
            lemma_always_reaches_ready(coordinator, events[0]);
        }
        lemma_run_ends_ready(then, events.drop_first());
    }
}

/// No stage is entered again once it was left: whatever the event, the
/// coordinator stays at its stage or moves to a later one, and it keeps its
/// settings and its mirrors. An event that it does not wait for changes
/// nothing and asks for nothing.
pub proof fn lemma_never_goes_back(coordinator: CoordinatorView, event: EventView)
    requires
        coordinator.wf(),
    ensures
        coordinator.step(event).0.wf(),
        coordinator.step(event).0.stage().rank() >= coordinator.stage().rank(),
        coordinator.step(event).0.fetch_assets == coordinator.fetch_assets,
        coordinator.step(event).0.auto_continue == coordinator.auto_continue,
        coordinator.step(event).0.sync.mirrors == coordinator.sync.mirrors,
        !coordinator.expects(event) ==> coordinator.step(event) == (
            coordinator,
            ReactionView::nothing(),
        ),
{
}

/// The foreground is told before the work begins: when the coordinator asks
/// for the background picture, for the check of the index or for the game
/// version, the last message that it sends puts that work on the status
/// page.
pub proof fn lemma_status_before_work(coordinator: CoordinatorView, event: EventView)
    requires
        coordinator.wf(),
    ensures
        ({
            let reaction = coordinator.step(event).1;
            &&& reaction.task == Some(TaskView::FetchAssets) ==> reaction.messages.len() > 0
                && reaction.messages.last() == status_msg(Phrase::DownloadingBackgroundPicture)
            &&& reaction.task == Some(TaskView::CheckIndex) ==> reaction.messages.len() > 0
                && reaction.messages.last() == status_msg(Phrase::UpdatingComponentsIndex)
            &&& reaction.task == Some(TaskView::FetchGameDiff) ==> reaction.messages.len() > 0
                && reaction.messages.last() == status_msg(Phrase::LoadingGameVersion)
        }),
{
}

/// An index that is current is left alone: when the check finds it current,
/// no mirror is tried and the user is told of no change.
pub proof fn lemma_current_index_is_left_alone(coordinator: CoordinatorView)
    requires
        coordinator.wf(),
        coordinator.phase == Phase::CheckingIndex,
    ensures
        ({
            let (then, reaction) = coordinator.step(EventView::IndexChecked(Ok(true)));
            &&& then.sync == coordinator.sync
            &&& then.phase == Phase::CheckingGameVersion
            &&& reaction.messages == seq![status_msg(Phrase::LoadingGameVersion)]
        }),
{
}

/// A mirror that has nothing new still succeeds: an empty change log ends
/// the attempts like any other, no failure is added, and the user is told
/// without a description.
pub proof fn lemma_empty_change_log_is_success(coordinator: CoordinatorView)
    requires
        coordinator.wf(),
        coordinator.phase == Phase::Syncing,
    ensures
        ({
            let (then, reaction) = coordinator.step(EventView::Synced(Ok(Seq::empty())));
            &&& then.phase == Phase::CheckingGameVersion
            &&& then.sync.failures == coordinator.sync.failures
            &&& then.sync.source() == coordinator.sync.pending()
            &&& reaction.messages[0] == (AppMsgView::Toast {
                title: TextView::Phrase(Phrase::ComponentsIndexUpdated),
                description: None,
            })
        }),
{
}

} // verus!
