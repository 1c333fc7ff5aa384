//! The resolver: which prerequisite of the game is the first that is not met.
//!
//! The prerequisites depend on each other in a fixed order: the runtime, the
//! prefix, the redistributable, the fonts, the game itself. A resolution asks
//! for one probe at a time, in that order, and ends at the first prerequisite
//! that is absent or whose probe failed. The probes themselves are made
//! outside: [`Resolver`] says which one comes next and takes its answer.
//! [`resolve`] does the same against answers that were recorded beforehand.

use vstd::prelude::*;
use crate::error::ResolutionError;
use crate::state::{
    copy_fonts, game_state, holds_font, DiffKind, FontId, LauncherState, LauncherStateView,
    StateUpdating, VersionDiff, VersionDiffView,
};

verus! {

/// A probe of the installation.
#[derive(Clone, Copy, Debug, PartialEq, Eq, Structural)]
pub enum Check {
    /// Is the selected runtime installed?
    Runtime,
    /// Does the prefix exist?
    Prefix,
    /// Is the redistributable installed in the prefix?
    Redistributable,
    /// Is this font installed in the prefix?
    Font(FontId),
}

/// The answer to a probe, as contracts see it: whether the thing is present,
/// or the message of the failure.
pub open spec fn reply_view(reply: Result<bool, ResolutionError>) -> Result<bool, Seq<char>> {
    match reply {
        Ok(present) => Ok(present),
        Err(e) => Err(e@),
    }
}

/// The result of a resolution, as contracts see it.
pub open spec fn outcome_view(outcome: Result<LauncherState, ResolutionError>) -> Result<
    LauncherStateView,
    Seq<char>,
> {
    match outcome {
        Ok(state) => Ok(state@),
        Err(e) => Err(e@),
    }
}

/// A copy of an answer.
pub(crate) fn copy_reply(reply: &Result<bool, ResolutionError>) -> (copy: Result<bool, ResolutionError>)
    ensures
        reply_view(copy) == reply_view(*reply),
{
    match reply {
        Ok(present) => Ok(*present),
        Err(e) => Err(ResolutionError { message: e.message.clone() }),
    }
}

/// The state that a difference alone asks for.
pub fn state_of_diff(diff: &Option<VersionDiff>) -> (state: LauncherState)
    ensures
        state@ == game_state(diff.deep_view()),
{
    match diff {
        None => LauncherState::Launch,
        Some(d) => match d.kind() {
            DiffKind::UpToDate => LauncherState::Launch,
            DiffKind::Update => LauncherState::GameUpdateAvailable(d.clone()),
            DiffKind::FreshInstall => LauncherState::GameNotInstalled(d.clone()),
        },
    }
}

// ----------------------------------------------------------------------
// Recorded answers and what they determine
// ----------------------------------------------------------------------

/// The recorded answer to the probe of one font.
#[derive(Debug, PartialEq, Eq)]
pub struct FontProbe {
    pub font: FontId,
    pub outcome: Result<bool, ResolutionError>,
}

/// What a [`FontProbe`] stands for.
pub struct FontProbeView {
    pub font: FontId,
    pub outcome: Result<bool, Seq<char>>,
}

impl View for FontProbe {
    type V = FontProbeView;

    open spec fn view(&self) -> FontProbeView {
        FontProbeView { font: self.font, outcome: reply_view(self.outcome) }
    }
}

impl DeepView for FontProbe {
    type V = FontProbeView;

    open spec fn deep_view(&self) -> FontProbeView {
        self@
    }
}

/// The recorded answers to every probe: one for each of the runtime, the
/// prefix and the redistributable, and one for each font that the game needs,
/// in the order in which the fonts are probed.
#[derive(Debug, PartialEq, Eq)]
pub struct Probes {
    pub runtime: Result<bool, ResolutionError>,
    pub prefix: Result<bool, ResolutionError>,
    pub redistributable: Result<bool, ResolutionError>,
    pub fonts: Vec<FontProbe>,
}

/// What [`Probes`] stand for.
pub struct ProbesView {
    pub runtime: Result<bool, Seq<char>>,
    pub prefix: Result<bool, Seq<char>>,
    pub redistributable: Result<bool, Seq<char>>,
    pub fonts: Seq<FontProbeView>,
}

impl View for Probes {
    type V = ProbesView;

    open spec fn view(&self) -> ProbesView {
        ProbesView {
            runtime: reply_view(self.runtime),
            prefix: reply_view(self.prefix),
            redistributable: reply_view(self.redistributable),
            fonts: self.fonts.deep_view(),
        }
    }
}

/// Whether an answer says that the thing is present.
pub open spec fn met(reply: Result<bool, Seq<char>>) -> bool {
    reply matches Ok(present) && present
}

/// The fonts that are missing, from the probe with index `from` on, added to
/// those in `missing`: each font once, in the order of its first probe that
/// found it absent. The first probe that failed ends the scan with its
/// message.
pub open spec fn scan_fonts(fonts: Seq<FontProbeView>, from: nat, missing: Seq<FontId>) -> Result<
    Seq<FontId>,
    Seq<char>,
>
    decreases fonts.len() - from,
{
    if from >= fonts.len() {
        Ok(missing)
    } else {
        match fonts[from as int].outcome {
            Err(e) => Err(e),
            Ok(present) => scan_fonts(
                fonts,
                from + 1,
                note_font(missing, fonts[from as int].font, present),
            ),
        }
    }
}

/// The missing fonts after one more probe: an absent font joins them unless
/// it is among them already.
pub open spec fn note_font(missing: Seq<FontId>, font: FontId, present: bool) -> Seq<FontId> {
    if present || missing.contains(font) {
        missing
    } else {
        missing.push(font)
    }
}

/// The result once the fonts were scanned: the fonts that are missing, if
/// there are any, and else what the difference asks for.
pub open spec fn after_fonts(
    scan: Result<Seq<FontId>, Seq<char>>,
    diff: Option<VersionDiffView>,
) -> Result<LauncherStateView, Seq<char>> {
    match scan {
        Err(e) => Err(e),
        Ok(missing) => if missing.len() > 0 {
            Ok(LauncherStateView::CorefontsNotInstalled(missing))
        } else {
            Ok(game_state(diff))
        },
    }
}

/// The result from the redistributable on.
pub open spec fn after_prefix(probes: ProbesView, diff: Option<VersionDiffView>) -> Result<
    LauncherStateView,
    Seq<char>,
> {
    match probes.redistributable {
        Err(e) => Err(e),
        Ok(false) => Ok(LauncherStateView::Mfc140NotInstalled),
        Ok(true) => after_fonts(scan_fonts(probes.fonts, 0, Seq::empty()), diff),
    }
}

/// The result from the prefix on.
pub open spec fn after_runtime(probes: ProbesView, diff: Option<VersionDiffView>) -> Result<
    LauncherStateView,
    Seq<char>,
> {
    match probes.prefix {
        Err(e) => Err(e),
        Ok(false) => Ok(LauncherStateView::PrefixNotExists),
        Ok(true) => after_prefix(probes, diff),
    }
}

/// What a resolution returns: the state of the first prerequisite, in the
/// order of dependencies, that is absent, or the failure of the first probe
/// that failed, whichever comes first; `Launch` when nothing is absent and
/// the difference, if one is known, is empty.
pub open spec fn outcome_spec(probes: ProbesView, diff: Option<VersionDiffView>) -> Result<
    LauncherStateView,
    Seq<char>,
> {
    match probes.runtime {
        Err(e) => Err(e),
        Ok(false) => Ok(LauncherStateView::WineNotInstalled),
        Ok(true) => after_runtime(probes, diff),
    }
}

/// Whether a resolution gets as far as the game version: the runtime, the
/// prefix, the redistributable and every font are present.
pub open spec fn reaches_game(probes: ProbesView) -> bool {
    &&& met(probes.runtime)
    &&& met(probes.prefix)
    &&& met(probes.redistributable)
    &&& scan_fonts(probes.fonts, 0, Seq::empty()) == Ok::<Seq<FontId>, Seq<char>>(Seq::empty())
}

/// What a resolution reports while it runs: the components before the first
/// probe, and the game before the game version is looked at.
pub open spec fn progress_spec(probes: ProbesView) -> Seq<StateUpdating> {
    if reaches_game(probes) {
        seq![StateUpdating::Components, StateUpdating::Game]
    } else {
        seq![StateUpdating::Components]
    }
}

/// Whether the stage with the given place in the order of dependencies is
/// met: 0 the runtime, 1 the prefix, 2 the redistributable, 3 the fonts,
/// 4 the game.
pub open spec fn stage_met(probes: ProbesView, diff: Option<VersionDiffView>, stage: nat) -> bool {
    if stage == 0 {
        met(probes.runtime)
    } else if stage == 1 {
        met(probes.prefix)
    } else if stage == 2 {
        met(probes.redistributable)
    } else if stage == 3 {
        scan_fonts(probes.fonts, 0, Seq::empty()) == Ok::<Seq<FontId>, Seq<char>>(Seq::empty())
    } else {
        game_state(diff) is Launch
    }
}

// ----------------------------------------------------------------------
// The resolver, one probe at a time
// ----------------------------------------------------------------------

/// What a resolver waits for.
pub enum Position {
    Runtime,
    Prefix,
    Redistributable,
    /// The answer for the required font with this index.
    Font(nat),
    /// Nothing: the resolution has ended.
    Finished,
}

/// What comes after a step.
#[derive(Debug, PartialEq, Eq)]
pub enum Next {
    /// This probe is to be made and its answer handed to the resolver.
    Probe(Check),
    /// The resolution has ended with this result.
    Finished(Result<LauncherState, ResolutionError>),
}

/// What a [`Next`] stands for.
pub enum NextView {
    Probe(Check),
    Finished(Result<LauncherStateView, Seq<char>>),
}

impl View for Next {
    type V = NextView;

    open spec fn view(&self) -> NextView {
        match self {
            Next::Probe(check) => NextView::Probe(*check),
            Next::Finished(outcome) => NextView::Finished(outcome_view(*outcome)),
        }
    }
}

/// One step of a resolution.
#[derive(Debug, PartialEq, Eq)]
pub struct Step {
    /// What is to be reported before anything else is done.
    pub progress: Option<StateUpdating>,
    pub next: Next,
}

/// What a [`Step`] stands for.
pub struct StepView {
    pub progress: Option<StateUpdating>,
    pub next: NextView,
}

impl View for Step {
    type V = StepView;

    open spec fn view(&self) -> StepView {
        StepView { progress: self.progress, next: self.next@ }
    }
}

impl DeepView for Step {
    type V = StepView;

    open spec fn deep_view(&self) -> StepView {
        self@
    }
}

/// What a [`Resolver`] stands for.
pub struct ResolverView {
    /// The fonts that the game needs, in the order in which they are probed.
    pub required: Seq<FontId>,
    /// The difference that was known when the resolution began.
    pub diff: Option<VersionDiffView>,
    pub position: Position,
    /// The fonts that were found missing so far.
    pub missing: Seq<FontId>,
}

impl ResolverView {
    /// The font that is probed exists, no font was found missing twice, and
    /// none before the fonts were reached.
    pub open spec fn wf(self) -> bool {
        &&& self.missing.no_duplicates()
        &&& match self.position {
            Position::Font(i) => i < self.required.len(),
            Position::Finished => true,
            _ => self.missing.len() == 0,
        }
    }

    /// The resolver as it begins.
    pub open spec fn initial(required: Seq<FontId>, diff: Option<VersionDiffView>) -> ResolverView {
        ResolverView { required, diff, position: Position::Runtime, missing: Seq::empty() }
    }

    /// The probe whose answer the resolver waits for.
    pub open spec fn pending(self) -> Option<Check> {
        match self.position {
            Position::Runtime => Some(Check::Runtime),
            Position::Prefix => Some(Check::Prefix),
            Position::Redistributable => Some(Check::Redistributable),
            Position::Font(i) => Some(Check::Font(self.required[i as int])),
            Position::Finished => None,
        }
    }

    /// An upper bound on the answers that the resolver still takes.
    pub open spec fn remaining(self) -> nat {
        match self.position {
            Position::Runtime => self.required.len() + 3,
            Position::Prefix => self.required.len() + 2,
            Position::Redistributable => self.required.len() + 1,
            Position::Font(i) => (self.required.len() - i) as nat,
            Position::Finished => 0,
        }
    }

    /// The resolver at another position.
    pub open spec fn at(self, position: Position) -> ResolverView {
        ResolverView { position, ..self }
    }

    /// The step that ends the resolution with `state`.
    pub open spec fn finish(self, state: LauncherStateView) -> (ResolverView, Option<StepView>) {
        (
            self.at(Position::Finished),
            Some(StepView { progress: None, next: NextView::Finished(Ok(state)) }),
        )
    }

    /// The step that asks for the next probe.
    pub open spec fn ask(self, position: Position) -> (ResolverView, Option<StepView>) {
        let then = self.at(position);
        (then, Some(StepView { progress: None, next: NextView::Probe(then.pending().unwrap()) }))
    }

    /// The step taken when the fonts before index `i` have been probed: the
    /// next font is probed; when none is left, missing fonts end the
    /// resolution, and else the game is reported and the difference decides.
    pub open spec fn enter_fonts(self, i: nat) -> (ResolverView, Option<StepView>) {
        if i < self.required.len() {
            self.ask(Position::Font(i))
        } else if self.missing.len() > 0 {
            self.finish(LauncherStateView::CorefontsNotInstalled(self.missing))
        } else {
            (
                self.at(Position::Finished),
                Some(
                    StepView {
                        progress: Some(StateUpdating::Game),
                        next: NextView::Finished(Ok(game_state(self.diff))),
                    },
                ),
            )
        }
    }

    /// The resolver after an answer, and the step that follows. A resolver
    /// that has ended takes no answer. A failed probe ends the resolution
    /// with the failure, an absent prerequisite with its state; an absent
    /// font is noted and the scan goes on.
    pub open spec fn advance(self, reply: Result<bool, Seq<char>>) -> (
        ResolverView,
        Option<StepView>,
    ) {
        match self.position {
            Position::Finished => (self, None),
            _ => match reply {
                Err(e) => (
                    self.at(Position::Finished),
                    Some(StepView { progress: None, next: NextView::Finished(Err(e)) }),
                ),
                Ok(present) => match self.position {
                    Position::Runtime => if present {
                        self.ask(Position::Prefix)
                    } else {
                        self.finish(LauncherStateView::WineNotInstalled)
                    },
                    Position::Prefix => if present {
                        self.ask(Position::Redistributable)
                    } else {
                        self.finish(LauncherStateView::PrefixNotExists)
                    },
                    Position::Redistributable => if present {
                        self.enter_fonts(0)
                    } else {
                        self.finish(LauncherStateView::Mfc140NotInstalled)
                    },
                    Position::Font(i) => ResolverView {
                        missing: note_font(self.missing, self.required[i as int], present),
                        ..self
                    }.enter_fonts(i + 1),
                    Position::Finished => (self, None),
                },
            },
        }
    }

    /// Whether the resolver asks for the fonts of `probes`, in their order,
    /// and holds the difference `diff`.
    pub open spec fn asks_for(self, probes: ProbesView, diff: Option<VersionDiffView>) -> bool {
        &&& self.diff == diff
        &&& self.required.len() == probes.fonts.len()
        &&& forall|i: int|
            0 <= i < self.required.len() ==> self.required[i] == (#[trigger] probes.fonts[i]).font
    }

    /// The recorded answer to the probe that the resolver waits for.
    pub open spec fn answer(self, probes: ProbesView) -> Result<bool, Seq<char>> {
        match self.position {
            Position::Runtime => probes.runtime,
            Position::Prefix => probes.prefix,
            Position::Redistributable => probes.redistributable,
            Position::Font(i) => probes.fonts[i as int].outcome,
            Position::Finished => Ok(true),
        }
    }

    /// The result that the recorded answers determine from here on.
    pub open spec fn outcome_from(self, probes: ProbesView) -> Result<LauncherStateView, Seq<char>> {
        match self.position {
            Position::Runtime => outcome_spec(probes, self.diff),
            Position::Prefix => after_runtime(probes, self.diff),
            Position::Redistributable => after_prefix(probes, self.diff),
            Position::Font(i) => after_fonts(scan_fonts(probes.fonts, i, self.missing), self.diff),
            Position::Finished => Ok(LauncherStateView::Launch),
        }
    }

    /// Whether the recorded answers lead from here to the game version.
    pub open spec fn game_from(self, probes: ProbesView) -> bool {
        let none_missing = Ok::<Seq<FontId>, Seq<char>>(Seq::empty());
        match self.position {
            Position::Runtime => reaches_game(probes),
            Position::Prefix => met(probes.prefix) && met(probes.redistributable) && scan_fonts(
                probes.fonts,
                0,
                Seq::empty(),
            ) == none_missing,
            Position::Redistributable => met(probes.redistributable) && scan_fonts(
                probes.fonts,
                0,
                Seq::empty(),
            ) == none_missing,
            Position::Font(i) => scan_fonts(probes.fonts, i, self.missing) == none_missing,
            Position::Finished => false,
        }
    }
}

/// What the resolver waits for, in executable form.
#[derive(Clone, Copy)]
enum Waiting {
    Runtime,
    Prefix,
    Redistributable,
    Font(usize),
    Nothing,
}

impl Waiting {
    spec fn position(self) -> Position {
        match self {
            Waiting::Runtime => Position::Runtime,
            Waiting::Prefix => Position::Prefix,
            Waiting::Redistributable => Position::Redistributable,
            Waiting::Font(i) => Position::Font(i as nat),
            Waiting::Nothing => Position::Finished,
        }
    }
}

/// A resolution in progress. It is made by [`Resolver::start`], which also
/// gives the first step; each answer to the probe that a step asks for goes
/// to [`Resolver::advance`], which gives the next step.
pub struct Resolver {
    required: Vec<FontId>,
    diff: Option<VersionDiff>,
    waiting: Waiting,
    missing: Vec<FontId>,
}

impl View for Resolver {
    type V = ResolverView;

    closed spec fn view(&self) -> ResolverView {
        ResolverView {
            required: self.required@,
            diff: self.diff.deep_view(),
            position: self.waiting.position(),
            missing: self.missing@,
        }
    }
}

impl Resolver {
    #[verifier::type_invariant]
    spec fn inv(self) -> bool {
        self@.wf()
    }

    /// Begins a resolution for a game that needs the fonts `required`, with
    /// the difference that is known at this time. The components are
    /// reported, and the runtime is the first to be probed.
    pub fn start(required: Vec<FontId>, diff: Option<VersionDiff>) -> (begun: (Resolver, Step))
        ensures
            begun.0@ == ResolverView::initial(required@, diff.deep_view()),
            begun.0@.wf(),
            begun.1@ == (StepView {
                progress: Some(StateUpdating::Components),
                next: NextView::Probe(Check::Runtime),
            }),
    {
        let resolver = Resolver { required, diff, waiting: Waiting::Runtime, missing: Vec::new() };
        let step = Step {
            progress: Some(StateUpdating::Components),
            next: Next::Probe(Check::Runtime),
        };
        (resolver, step)
    }

    /// The probe whose answer the resolver waits for, if it waits for one.
    pub fn pending(&self) -> (check: Option<Check>)
        ensures
            check == self@.pending(),
            self@.wf(),
    {
        proof {
            use_type_invariant(self);
        }
        match self.waiting {
            Waiting::Runtime => Some(Check::Runtime),
            Waiting::Prefix => Some(Check::Prefix),
            Waiting::Redistributable => Some(Check::Redistributable),
            Waiting::Font(i) => Some(Check::Font(self.required[i])),
            Waiting::Nothing => None,
        }
    }

    /// The index, among the required fonts, of the font that is probed, if
    /// one is.
    pub fn font_index(&self) -> (index: Option<usize>)
        ensures
            self@.wf(),
            match index {
                Some(i) => self@.position == Position::Font(i as nat),
                None => !(self@.position is Font),
            },
    {
        proof {
            use_type_invariant(self);
        }
        match self.waiting {
            Waiting::Font(i) => Some(i),
            _ => None,
        }
    }

    fn finish(self, state: LauncherState) -> (then: (Resolver, Option<Step>))
        ensures
            (then.0@, then.1.deep_view()) == self@.finish(state@),
    {
        proof {
            use_type_invariant(&self);
        }
        let Resolver { required, diff, waiting: _, missing } = self;
        (
            Resolver { required, diff, waiting: Waiting::Nothing, missing },
            Some(Step { progress: None, next: Next::Finished(Ok(state)) }),
        )
    }

    fn ask(self, waiting: Waiting, check: Check) -> (then: (Resolver, Option<Step>))
        requires
            self@.missing.len() == 0,
            waiting is Prefix && check == Check::Prefix || waiting is Redistributable && check
                == Check::Redistributable,
        ensures
            (then.0@, then.1.deep_view()) == self@.ask(waiting.position()),
    {
        let Resolver { required, diff, waiting: _, missing } = self;
        (
            Resolver { required, diff, waiting, missing },
            Some(Step { progress: None, next: Next::Probe(check) }),
        )
    }

    fn enter_fonts(
        required: Vec<FontId>,
        diff: Option<VersionDiff>,
        missing: Vec<FontId>,
        i: usize,
    ) -> (then: (Resolver, Option<Step>))
        requires
            missing@.no_duplicates(),
        ensures
            (then.0@, then.1.deep_view()) == (ResolverView {
                required: required@,
                diff: diff.deep_view(),
                position: Position::Finished,
                missing: missing@,
            }).enter_fonts(i as nat),
    {
        if i < required.len() {
            let font = required[i];
            (
                Resolver { required, diff, waiting: Waiting::Font(i), missing },
                Some(Step { progress: None, next: Next::Probe(Check::Font(font)) }),
            )
        } else if missing.len() > 0 {
            let fonts = copy_fonts(&missing);
            (
                Resolver { required, diff, waiting: Waiting::Nothing, missing },
                Some(
                    Step {
                        progress: None,
                        next: Next::Finished(Ok(LauncherState::CorefontsNotInstalled(fonts))),
                    },
                ),
            )
        } else {
            let state = state_of_diff(&diff);
            (
                Resolver { required, diff, waiting: Waiting::Nothing, missing },
                Some(Step { progress: Some(StateUpdating::Game), next: Next::Finished(Ok(state)) }),
            )
        }
    }

    /// Takes the answer to the pending probe and gives the resolver after it
    /// and the step that follows; no step, and the resolver as it was, when
    /// the resolution has ended.
    pub fn advance(self, reply: Result<bool, ResolutionError>) -> (then: (Resolver, Option<Step>))
        ensures
            (then.0@, then.1.deep_view()) == self@.advance(reply_view(reply)),
            self@.wf(),
            then.0@.wf(),
    {
        proof {
            use_type_invariant(&self);
        }
        match self.waiting {
            Waiting::Nothing => (self, None),
            waiting => match reply {
                Err(e) => {
                    let Resolver { required, diff, waiting: _, missing } = self;
                    (
                        Resolver { required, diff, waiting: Waiting::Nothing, missing },
                        Some(Step { progress: None, next: Next::Finished(Err(e)) }),
                    )
                },
                Ok(present) => match waiting {
                    Waiting::Runtime => if present {
                        self.ask(Waiting::Prefix, Check::Prefix)
                    } else {
                        self.finish(LauncherState::WineNotInstalled)
                    },
                    Waiting::Prefix => if present {
                        self.ask(Waiting::Redistributable, Check::Redistributable)
                    } else {
                        self.finish(LauncherState::PrefixNotExists)
                    },
                    Waiting::Redistributable => if present {
                        let Resolver { required, diff, waiting: _, missing } = self;
                        Resolver::enter_fonts(required, diff, missing, 0)
                    } else {
                        self.finish(LauncherState::Mfc140NotInstalled)
                    },
                    Waiting::Font(i) => {
                        assert(i < self.required.len());
                        let Resolver { required, diff, waiting: _, mut missing } = self;
                        let font = required[i];
                        if !present && !holds_font(&missing, font) {
                            missing.push(font);
                        }
                        Resolver::enter_fonts(required, diff, missing, i + 1)
                    },
                    Waiting::Nothing => (self, None),
                },
            },
        }
    }
}

// ----------------------------------------------------------------------
// A whole resolution against recorded answers
// ----------------------------------------------------------------------

/// What a resolution gave: its result, and what it reported on the way.
#[derive(Debug, PartialEq, Eq)]
pub struct Resolution {
    pub outcome: Result<LauncherState, ResolutionError>,
    pub progress: Vec<StateUpdating>,
}

/// The fonts that the recorded answers speak of, in their order.
pub(crate) fn probed_fonts(probes: &Probes) -> (fonts: Vec<FontId>)
    ensures
        fonts@.len() == probes@.fonts.len(),
        forall|i: int| 0 <= i < fonts@.len() ==> fonts@[i] == (#[trigger] probes@.fonts[i]).font,
{
    let mut fonts: Vec<FontId> = Vec::new();
    let mut i: usize = 0;
    while i < probes.fonts.len()
        invariant
            i <= probes.fonts.len(),
            fonts@.len() == i,
            forall|j: int| 0 <= j < i ==> fonts@[j] == (#[trigger] probes@.fonts[j]).font,
        decreases probes.fonts.len() - i,
    {
        fonts.push(probes.fonts[i].font);
        i += 1;
    }
    fonts
}

/// Runs a resolution against recorded answers: a resolver is begun and is
/// given, for each probe that it asks for, the answer that was recorded.
/// Answers to probes that it never asks for are not looked at.
pub fn resolve(probes: &Probes, diff: Option<VersionDiff>) -> (resolution: Resolution)
    ensures
        outcome_view(resolution.outcome) == outcome_spec(probes@, diff.deep_view()),
        resolution.progress@ == progress_spec(probes@),
{
    let ghost known = diff.deep_view();
    let required = probed_fonts(probes);
    let (mut resolver, first) = Resolver::start(required, diff);
    let Step { progress: report, next: mut next } = first;
    let mut progress: Vec<StateUpdating> = Vec::new();
    note_progress(&mut progress, report);
    loop
        invariant
            known == diff.deep_view(),
            resolver@.wf(),
            resolver@.asks_for(probes@, known),
            match next@ {
                NextView::Probe(check) => {
                    &&& resolver@.pending() == Some(check)
                    &&& resolver@.outcome_from(probes@) == outcome_spec(probes@, known)
                    &&& resolver@.game_from(probes@) == reaches_game(probes@)
                    &&& progress@ == seq![StateUpdating::Components]
                },
                NextView::Finished(outcome) => {
                    &&& outcome == outcome_spec(probes@, known)
                    &&& progress@ == progress_spec(probes@)
                },
            },
        decreases resolver@.remaining(),
    {
        match next {
            Next::Finished(outcome) => {
                return Resolution { outcome, progress };
            },
            Next::Probe(check) => {
                let reply = match check {
                    Check::Runtime => copy_reply(&probes.runtime),
                    Check::Prefix => copy_reply(&probes.prefix),
                    Check::Redistributable => copy_reply(&probes.redistributable),
                    Check::Font(_) => {
                        let i = resolver.font_index().unwrap();
                        assert(probes@.fonts[i as int] == probes.fonts@[i as int]@);
                        copy_reply(&probes.fonts[i].outcome)
                    },
                };
                assert(reply_view(reply) == resolver@.answer(probes@));
                proof {
                    lemma_advance_follows(resolver@, probes@, known);
                }
                let (then, stepped) = resolver.advance(reply);
                let Step { progress: report, next: following } = stepped.unwrap();
                note_progress(&mut progress, report);
                resolver = then;
                next = following;
            },
        }
    }
}

/// Adds what a step reports, if anything, to what was reported before.
fn note_progress(progress: &mut Vec<StateUpdating>, report: Option<StateUpdating>)
    ensures
        final(progress)@ == old(progress)@ + reported(report),
{
    match report {
        Some(updating) => {
            progress.push(updating);
        },
        None => {},
    }
}

/// What was reported, as a sequence of at most one member.
pub open spec fn reported(progress: Option<StateUpdating>) -> Seq<StateUpdating> {
    match progress {
        Some(updating) => seq![updating],
        None => Seq::empty(),
    }
}

// ----------------------------------------------------------------------
// What holds of every resolution
// ----------------------------------------------------------------------

/// A resolver that is given the recorded answer to the probe it waits for
/// takes the answer, comes closer to its end, and keeps the result that the
/// recorded answers determine: it either asks for the next probe, with the
/// same result ahead, or ends with that result. It reports the game exactly
/// when it ends after every font was found present.
pub proof fn lemma_advance_follows(
    resolver: ResolverView,
    probes: ProbesView,
    diff: Option<VersionDiffView>,
)
    requires
        resolver.wf(),
        resolver.asks_for(probes, diff),
        !(resolver.position is Finished),
    ensures
        ({
            let (then, step) = resolver.advance(resolver.answer(probes));
            &&& step is Some
            &&& then.wf()
            &&& then.asks_for(probes, diff)
            &&& then.remaining() < resolver.remaining()
            &&& match step.unwrap().next {
                NextView::Probe(check) => {
                    &&& then.pending() == Some(check)
                    &&& step.unwrap().progress is None
                    &&& then.outcome_from(probes) == resolver.outcome_from(probes)
                    &&& then.game_from(probes) == resolver.game_from(probes)
                },
                NextView::Finished(outcome) => {
                    &&& then.position is Finished
                    &&& outcome == resolver.outcome_from(probes)
                    &&& step.unwrap().progress == if resolver.game_from(probes) {
                        Some(StateUpdating::Game)
                    } else {
                        None
                    }
                },
            }
        }),
{
    let none: Seq<FontId> = Seq::empty();
    match resolver.position {
        Position::Redistributable => {
            assert(resolver.missing =~= none);
        },
        Position::Font(i) => {
            match probes.fonts[i as int].outcome {
                Ok(present) => {
                    let noted = note_font(resolver.missing, resolver.required[i as int], present);
                    let next: nat = i + 1;
                    assert(noted.len() == 0 ==> noted =~= none);
                    assert(scan_fonts(probes.fonts, i, resolver.missing) == scan_fonts(
                        probes.fonts,
                        next,
                        noted,
                    ));
                    if next >= probes.fonts.len() {
                        assert(scan_fonts(probes.fonts, next, noted) == Ok::<
                            Seq<FontId>,
                            Seq<char>,
                        >(noted));
                    }
                },
                Err(_) => {},
            }
        },
        _ => {},
    }
}

/// What a scan of the fonts gives. If it succeeds, no probe from `from` on
/// failed, and the fonts it gives are, each once, those that were missing
/// before and those that a probe from `from` on found absent. If it fails,
/// it fails with the message of the first probe from `from` on that failed.
pub proof fn lemma_scan_fonts(fonts: Seq<FontProbeView>, from: nat, missing: Seq<FontId>)
    requires
        missing.no_duplicates(),
    ensures
        match scan_fonts(fonts, from, missing) {
            Ok(found) => {
                &&& found.no_duplicates()
                &&& forall|i: int| from <= i < fonts.len() ==> (#[trigger] fonts[i]).outcome is Ok
                &&& forall|font: FontId| #[trigger]
                    found.contains(font) <==> missing.contains(font) || found_absent(
                        fonts,
                        from,
                        font,
                    )
            },
            Err(e) => exists|i: int|
                {
                    &&& from <= i < fonts.len()
                    &&& (#[trigger] fonts[i]).outcome == Err::<bool, Seq<char>>(e)
                    &&& forall|j: int| from <= j < i ==> (#[trigger] fonts[j]).outcome is Ok
                },
        },
    decreases fonts.len() - from,
{
    if from < fonts.len() {
        let probe = fonts[from as int];
        match probe.outcome {
            Err(e) => {},
            Ok(present) => {
                let noted = note_font(missing, probe.font, present);
                let next: nat = from + 1;
                lemma_scan_fonts(fonts, next, noted);
                match scan_fonts(fonts, next, noted) {
                    Ok(found) => {
                        assert forall|font: FontId| #[trigger]
                            found.contains(font) <==> missing.contains(font) || found_absent(
                                fonts,
                                from,
                                font,
                            ) by {
                            assert(found.contains(font) <==> noted.contains(font) || found_absent(
                                fonts,
                                next,
                                font,
                            ));
                            if missing.contains(font) {
                                let k = choose|k: int| 0 <= k < missing.len() && missing[k] == font;
                                assert(noted[k] == font);
                            }
                            if noted.contains(font) && !missing.contains(font) {
                                let k = choose|k: int| 0 <= k < noted.len() && noted[k] == font;
                                if k < missing.len() {
                                    assert(missing[k] == font);
                                }
                                assert(absent_at(fonts, from, font, from as int));
                            }
                            if found_absent(fonts, next, font) {
                                let i = choose|i: int| absent_at(fonts, next, font, i);
                                assert(absent_at(fonts, from, font, i));
                            }
                            if found_absent(fonts, from, font) {
                                let i = choose|i: int| absent_at(fonts, from, font, i);
                                if i == from {
                                    if !missing.contains(font) {
                                        assert(noted[missing.len() as int] == font);
                                    }
                                    assert(noted.contains(font));
                                } else {
                                    assert(absent_at(fonts, next, font, i));
                                }
                            }
                        }
                    },
                    Err(e) => {
                        let i = choose|i: int|
                            {
                                &&& from + 1 <= i < fonts.len()
                                &&& (#[trigger] fonts[i]).outcome == Err::<bool, Seq<char>>(e)
                                &&& forall|j: int|
                                    from + 1 <= j < i ==> (#[trigger] fonts[j]).outcome is Ok
                            };
                        assert(from <= i < fonts.len() && fonts[i].outcome == Err::<
                            bool,
                            Seq<char>,
                        >(e));
                    },
                }
            },
        }
    }
}

/// Whether the probe with index `i`, at or after `from`, found `font` absent.
pub open spec fn absent_at(fonts: Seq<FontProbeView>, from: nat, font: FontId, i: int) -> bool {
    &&& from <= i < fonts.len()
    &&& fonts[i].font == font
    &&& fonts[i].outcome == Ok::<bool, Seq<char>>(false)
}

/// Whether a probe at or after `from` found `font` absent.
pub open spec fn found_absent(fonts: Seq<FontProbeView>, from: nat, font: FontId) -> bool {
    exists|i: int| absent_at(fonts, from, font, i)
}

/// The state that a resolution returns names the first stage, in the order
/// of dependencies, that is not met: every stage before it is met, and the
/// stage itself is not, unless the state is `Launch`, which stands behind
/// all of them. The state is well formed: its fonts are a set that is not
/// empty, and its difference is of the kind that the state names.
pub proof fn lemma_first_unmet_stage(probes: ProbesView, diff: Option<VersionDiffView>)
    ensures
        outcome_spec(probes, diff) matches Ok(state) ==> {
            &&& state.wf()
            &&& forall|stage: nat| stage < state.rank() ==> stage_met(probes, diff, stage)
            &&& state.rank() < 5 ==> !stage_met(probes, diff, state.rank())
        },
{
    lemma_scan_fonts(probes.fonts, 0, Seq::empty());
    match scan_fonts(probes.fonts, 0, Seq::empty()) {
        Ok(found) => {
            assert(found.len() == 0 ==> found =~= Seq::<FontId>::empty());
        },
        Err(_) => {},
    }
}

/// A resolution fails only with the failure of a probe, and never because
/// something is absent: when no probe failed it returns a state, and a
/// failure that it returns is the message of a probe.
pub proof fn lemma_fails_only_with_probe(probes: ProbesView, diff: Option<VersionDiffView>)
    ensures
        probes.runtime is Ok && probes.prefix is Ok && probes.redistributable is Ok && (forall|
            i: int,
        |
            0 <= i < probes.fonts.len() ==> (#[trigger] probes.fonts[i]).outcome is Ok)
            ==> outcome_spec(probes, diff) is Ok,
        outcome_spec(probes, diff) matches Err(e) ==> {
            ||| probes.runtime == Err::<bool, Seq<char>>(e)
            ||| probes.prefix == Err::<bool, Seq<char>>(e)
            ||| probes.redistributable == Err::<bool, Seq<char>>(e)
            ||| exists|i: int|
                0 <= i < probes.fonts.len() && (#[trigger] probes.fonts[i]).outcome == Err::<
                    bool,
                    Seq<char>,
                >(e)
        },
{
    lemma_scan_fonts(probes.fonts, 0, Seq::empty());
}

/// The recorded answers after one of the first three stages was completed:
/// the runtime (0), the prefix (1) or the redistributable (2) is now
/// present, and nothing else has changed.
pub open spec fn completed(probes: ProbesView, stage: nat) -> ProbesView {
    if stage == 0 {
        ProbesView { runtime: Ok(true), ..probes }
    } else if stage == 1 {
        ProbesView { prefix: Ok(true), ..probes }
    } else if stage == 2 {
        ProbesView { redistributable: Ok(true), ..probes }
    } else {
        probes
    }
}

/// When a resolution names the runtime, the prefix or the redistributable
/// as missing, and that stage is then completed while nothing else changes,
/// the next resolution does not stop at that stage or before it: it fails
/// with a probe, or it names the first of the later stages that is not met,
/// and it says `Launch` only if every later stage is met.
pub proof fn lemma_resolution_after_completed_stage(
    probes: ProbesView,
    diff: Option<VersionDiffView>,
)
    ensures
        outcome_spec(probes, diff) matches Ok(state) ==> (state.rank() <= 2 ==> {
            let next = outcome_spec(completed(probes, state.rank()), diff);
            next matches Ok(later) ==> {
                &&& later.rank() > state.rank()
                &&& forall|stage: nat|
                    stage < later.rank() ==> stage_met(completed(probes, state.rank()), diff, stage)
                &&& later.rank() < 5 ==> !stage_met(probes, diff, later.rank())
            }
        }),
{
    match outcome_spec(probes, diff) {
        Ok(state) => {
            if state.rank() <= 2 {
                lemma_first_unmet_stage(probes, diff);
                lemma_first_unmet_stage(completed(probes, state.rank()), diff);
            }
        },
        Err(_) => {},
    }
}

} // verus!
