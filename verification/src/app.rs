//! The application: what it keeps between events, and how it reacts to them.

use std::sync::Arc;

use ratatui::text::Line;
use vstd::prelude::*;

use crate::app_event::{Action, AppEvent, TuiEvent, COMMIT_TICK_MILLIS};
use crate::chars;
use crate::key::{KeyCode, KeyEvent, KeyEventKind};
use crate::protocol::Backend;
use crate::styled;
use crate::styled::{PagerLine, PagerLineView};

verus! {

// ---------------------------------------------------------------------------
// State
// ---------------------------------------------------------------------------

/// How far the backtracking has come: whether Esc has armed it, and how many
/// user messages back the selection stands.
#[derive(Clone, Copy, Debug, PartialEq, Eq, Structural)]
pub struct BacktrackState {
    pub primed: bool,
    pub count: usize,
}

/// What the application asks the chat widget before it reacts to a key.
#[derive(Clone, Copy, Debug, PartialEq, Eq, Structural)]
pub struct WidgetStatus {
    /// No task is running, and no popup or modal is open.
    pub normal_backtrack_mode: bool,
    /// The composer holds no text.
    pub composer_is_empty: bool,
}

/// A view that covers the whole screen.
pub enum Overlay {
    /// The transcript of the conversation.
    Transcript(Vec<Line<'static>>),
    /// A text that does not change while it is shown.
    Static { title: String, lines: Vec<PagerLine> },
}

/// The state of the application.
pub struct App<B: Backend> {
    config: Arc<B::Config>,
    server: Arc<B::Server>,
    overlay: Option<Overlay>,
    transcript_lines: Vec<Line<'static>>,
    deferred_history_lines: Vec<Line<'static>>,
    enhanced_keys_supported: bool,
    commit_anim_running: bool,
    backtrack: BacktrackState,
}

/// What an [`Overlay`] shows.
pub enum OverlayView {
    Transcript(Seq<Line<'static>>),
    Static { title: Seq<char>, lines: Seq<PagerLineView> },
}

/// The state of the application, as its contracts speak of it.
pub struct AppView<B: Backend> {
    /// The configuration that every chat widget starts with.
    pub config: Arc<B::Config>,
    /// What creates the conversation of every chat widget.
    pub server: Arc<B::Server>,
    /// The view that covers the screen, if there is one.
    pub overlay: Option<OverlayView>,
    /// Every line that the transcript was given.
    pub transcript: Seq<Line<'static>>,
    /// The lines that wait for the overlay to close.
    pub deferred: Seq<Line<'static>>,
    /// Whether the terminal reports keys such as Shift and Enter together.
    pub enhanced_keys_supported: bool,
    /// Whether the animation of streamed text runs.
    pub commit_anim_running: bool,
    /// How far the backtracking has come.
    pub backtrack: BacktrackState,
}

impl View for Overlay {
    type V = OverlayView;

    open spec fn view(&self) -> OverlayView {
        match self {
            Overlay::Transcript(lines) => OverlayView::Transcript(lines@),
            Overlay::Static { title, lines } => OverlayView::Static {
                title: title@,
                lines: styled::pager_views(lines@),
            },
        }
    }
}

impl<B: Backend> View for App<B> {
    type V = AppView<B>;

    closed spec fn view(&self) -> AppView<B> {
        AppView {
            config: self.config,
            server: self.server,
            overlay: match self.overlay {
                Some(overlay) => Some(overlay@),
                None => None,
            },
            transcript: self.transcript_lines@,
            deferred: self.deferred_history_lines@,
            enhanced_keys_supported: self.enhanced_keys_supported,
            commit_anim_running: self.commit_anim_running,
            backtrack: self.backtrack,
        }
    }
}

/// The backtracking at rest.
pub open spec fn idle_backtrack() -> BacktrackState {
    BacktrackState { primed: false, count: 0 }
}

/// The first `keep` of `lines`, or all of them where there are fewer.
pub open spec fn first_lines(lines: Seq<Line<'static>>, keep: nat) -> Seq<Line<'static>> {
    if keep < lines.len() {
        lines.take(keep as int)
    } else {
        lines
    }
}

impl<B: Backend> AppView<B> {
    /// What holds of the application at all times: an open transcript shows
    /// every line of the transcript, and lines wait only for an open overlay.
    pub open spec fn wf(self) -> bool {
        &&& self.overlay matches Some(OverlayView::Transcript(lines)) ==> lines == self.transcript
        &&& self.overlay is None ==> self.deferred == Seq::<Line<'static>>::empty()
    }

    /// The application before its first event.
    pub open spec fn initial(
        config: Arc<B::Config>,
        server: Arc<B::Server>,
        enhanced_keys_supported: bool,
    ) -> AppView<B> {
        AppView {
            config,
            server,
            overlay: None,
            transcript: Seq::empty(),
            deferred: Seq::empty(),
            enhanced_keys_supported,
            commit_anim_running: false,
            backtrack: idle_backtrack(),
        }
    }

    /// `recorded` goes to the transcript, and to its overlay where that is
    /// open; `displayed` waits where an overlay is open.
    pub open spec fn with_lines(
        self,
        recorded: Seq<Line<'static>>,
        displayed: Seq<Line<'static>>,
    ) -> AppView<B> {
        AppView {
            overlay: match self.overlay {
                Some(OverlayView::Transcript(lines)) => Some(
                    OverlayView::Transcript(lines + recorded),
                ),
                other => other,
            },
            transcript: self.transcript + recorded,
            deferred: if self.overlay is Some {
                self.deferred + displayed
            } else {
                self.deferred
            },
            ..self
        }
    }

    /// The transcript, and its overlay where that is open, without the lines
    /// from `keep` on.
    pub open spec fn with_transcript_cut(self, keep: nat) -> AppView<B> {
        AppView {
            overlay: match self.overlay {
                Some(OverlayView::Transcript(lines)) => Some(
                    OverlayView::Transcript(first_lines(lines, keep)),
                ),
                other => other,
            },
            transcript: first_lines(self.transcript, keep),
            ..self
        }
    }

    /// The transcript covers the screen.
    pub open spec fn with_transcript_open(self) -> AppView<B> {
        AppView { overlay: Some(OverlayView::Transcript(self.transcript)), ..self }
    }
}

// ---------------------------------------------------------------------------
// Events from inside the application
// ---------------------------------------------------------------------------

/// The state after an event from inside the application.
pub open spec fn after_event<B: Backend>(app: AppView<B>, event: AppEvent<B>) -> AppView<B> {
    match event {
        AppEvent::InsertHistoryLines(lines) => app.with_lines(lines@, lines@),
        AppEvent::InsertHistoryCell { transcript, display } => app.with_lines(
            transcript@,
            display@,
        ),
        AppEvent::StartCommitAnimation => AppView { commit_anim_running: true, ..app },
        AppEvent::StopCommitAnimation => AppView { commit_anim_running: false, ..app },
        AppEvent::DiffResult(text) => AppView {
            overlay: Some(
                OverlayView::Static { title: "D I F F"@, lines: styled::diff_pager(text@) },
            ),
            ..app
        },
        _ => app,
    }
}

/// What the application does about an event from inside it other than
/// [`AppEvent::NewSession`].
pub open spec fn plain_event_actions<B: Backend>(
    app: AppView<B>,
    event: AppEvent<B>,
) -> Seq<Action<B>> {
    match event {
        AppEvent::InsertHistoryLines(lines) => match app.overlay {
            Some(OverlayView::Transcript(_)) => seq![Action::ScheduleFrame],
            Some(_) => seq![],
            None => seq![Action::InsertHistoryLines(lines)],
        },
        AppEvent::InsertHistoryCell { transcript, display } => match app.overlay {
            Some(OverlayView::Transcript(_)) => seq![Action::ScheduleFrame],
            Some(_) => seq![],
            None => if display@.len() > 0 {
                seq![Action::InsertHistoryLines(display)]
            } else {
                seq![]
            },
        },
        AppEvent::StartCommitAnimation => if app.commit_anim_running {
            seq![]
        } else {
            seq![Action::SpawnCommitAnimation { tick_millis: COMMIT_TICK_MILLIS }]
        },
        AppEvent::StopCommitAnimation => seq![Action::EndCommitAnimation],
        AppEvent::CommitTick => seq![Action::CommitTick],
        AppEvent::CodexEvent(event) => seq![Action::HandleCodexEvent(event)],
        AppEvent::ConversationHistory(history) => seq![Action::BacktrackHistory(history)],
        AppEvent::ExitRequest => seq![],
        AppEvent::CodexOp(op) => seq![Action::SubmitOp(op)],
        AppEvent::DiffResult(_) => seq![
            Action::DiffComplete,
            Action::EnterAltScreen,
            Action::ScheduleFrame,
        ],
        AppEvent::StartFileSearch(query) => if query@.len() > 0 {
            seq![Action::FileSearch(query)]
        } else {
            seq![]
        },
        AppEvent::FileSearchResult { query, matches } => seq![
            Action::ApplyFileSearchResult { query, matches },
        ],
        AppEvent::UpdateReasoningEffort(effort) => seq![Action::SetReasoningEffort(effort)],
        AppEvent::UpdateModel(model) => seq![Action::SetModel(model)],
        AppEvent::UpdateAskForApprovalPolicy(policy) => seq![Action::SetApprovalPolicy(policy)],
        AppEvent::UpdateSandboxPolicy(policy) => seq![Action::SetSandboxPolicy(policy)],
        AppEvent::NewSession => seq![],
    }
}

/// `action` starts a chat widget from what the application was started with,
/// without prompt or images.
pub open spec fn starts_blank_widget<B: Backend>(app: AppView<B>, action: Action<B>) -> bool {
    &&& action matches Action::StartChatWidget {
        config,
        server,
        initial_prompt,
        initial_images,
        enhanced_keys_supported,
    }
    &&& config == app.config
    &&& server == app.server
    &&& initial_prompt is None
    &&& initial_images@ == Seq::<B::Path>::empty()
    &&& enhanced_keys_supported == app.enhanced_keys_supported
}

/// Whether `actions` is what the application does about an event from inside
/// it.
pub open spec fn event_actions<B: Backend>(
    app: AppView<B>,
    event: AppEvent<B>,
    actions: Seq<Action<B>>,
) -> bool {
    match event {
        AppEvent::NewSession => {
            &&& actions.len() == 3
            &&& actions[0] == Action::<B>::CollectTokenUsage
            &&& starts_blank_widget(app, actions[1])
            &&& actions[2] == Action::<B>::ScheduleFrame
        },
        _ => actions == plain_event_actions(app, event),
    }
}

// ---------------------------------------------------------------------------
// Keys and the other events from the terminal
// ---------------------------------------------------------------------------

/// Esc goes down while the chat widget is at rest and its composer empty: the
/// key belongs to the backtracking.
pub open spec fn steps_backtrack(key: KeyEvent, status: WidgetStatus) -> bool {
    &&& key.code == KeyCode::Esc
    &&& key.is_down()
    &&& status.normal_backtrack_mode
    &&& status.composer_is_empty
}

/// Enter goes down while the backtracking is armed, a message is selected and
/// the composer is empty: the key confirms the selection.
pub open spec fn confirms_backtrack<B: Backend>(
    app: AppView<B>,
    key: KeyEvent,
    status: WidgetStatus,
) -> bool {
    &&& key.code == KeyCode::Enter
    &&& key.kind == KeyEventKind::Press
    &&& app.backtrack.primed
    &&& app.backtrack.count > 0
    &&& status.composer_is_empty
}

/// A key other than Esc that goes to the chat widget disarms the backtracking.
pub open spec fn cancels_backtrack<B: Backend>(
    app: AppView<B>,
    key: KeyEvent,
    status: WidgetStatus,
) -> bool {
    &&& key.code != KeyCode::Esc
    &&& key.is_down()
    &&& !key.opens_transcript()
    &&& !confirms_backtrack(app, key, status)
    &&& app.backtrack.primed
}

/// The state after a key.
pub open spec fn after_key<B: Backend>(
    app: AppView<B>,
    key: KeyEvent,
    status: WidgetStatus,
) -> AppView<B> {
    if key.opens_transcript() {
        app.with_transcript_open()
    } else if cancels_backtrack(app, key, status) {
        AppView { backtrack: idle_backtrack(), ..app }
    } else {
        app
    }
}

/// What the application does about a key; `raw` is the key as it came.
pub open spec fn key_actions<B: Backend>(
    app: AppView<B>,
    key: KeyEvent,
    raw: B::Key,
    status: WidgetStatus,
) -> Seq<Action<B>> {
    if !key.is_down() {
        seq![]
    } else if key.opens_transcript() {
        seq![Action::EnterAltScreen, Action::ScheduleFrame]
    } else if steps_backtrack(key, status) {
        seq![Action::BacktrackEsc]
    } else if confirms_backtrack(app, key, status) {
        seq![Action::ConfirmBacktrack]
    } else if cancels_backtrack(app, key, status) {
        seq![Action::ResetBacktrack, Action::ForwardKey(raw)]
    } else {
        seq![Action::ForwardKey(raw)]
    }
}

/// The state after an event from the terminal.
pub open spec fn after_tui_event<B: Backend>(
    app: AppView<B>,
    event: TuiEvent<B>,
    status: WidgetStatus,
) -> AppView<B> {
    match event {
        TuiEvent::Key { key, raw } if app.overlay is None => after_key(app, key, status),
        _ => app,
    }
}

/// Whether `actions` is what the application does about an event from the
/// terminal.
pub open spec fn tui_actions<B: Backend>(
    app: AppView<B>,
    event: TuiEvent<B>,
    status: WidgetStatus,
    actions: Seq<Action<B>>,
) -> bool {
    if app.overlay is Some {
        actions == seq![Action::OverlayEvent(event)]
    } else {
        match event {
            TuiEvent::Key { key, raw } => actions == key_actions::<B>(app, key, raw, status),
            TuiEvent::Paste(pasted) => {
                &&& actions.len() == 1
                &&& actions[0] matches Action::HandlePaste(text)
                &&& text@ == chars::with_line_feeds(pasted@)
            },
            TuiEvent::Draw => actions == seq![Action::<B>::PasteBurstTick],
            TuiEvent::AttachImage { path, width, height, format_label } => actions == seq![
                Action::<B>::AttachImage { path, width, height, format_label },
            ],
        }
    }
}

// ---------------------------------------------------------------------------
// The loop
// ---------------------------------------------------------------------------

/// What the application's loop waits for.
pub enum Input<B: Backend> {
    /// An event from inside the application.
    App(AppEvent<B>),
    /// An event from the terminal, with what the chat widget says of itself.
    Tui { event: TuiEvent<B>, status: WidgetStatus },
    /// The answer to [`Action::PasteBurstTick`]: whether the chat widget is
    /// still taking in a paste.
    PasteBurst { handled: bool },
    /// The overlay was closed.
    OverlayClosed,
    /// The backtracking has moved.
    Backtrack(BacktrackState),
    /// The backtracking wants the transcript on the screen.
    OpenTranscript,
    /// The backtracking has gone back to an earlier message: the transcript
    /// keeps its first `keep` lines.
    CutTranscript { keep: usize },
    /// An action could not be done.
    Failed,
}

/// What the application does about an input, and whether its loop goes on.
pub struct Step<B: Backend> {
    pub actions: Vec<Action<B>>,
    pub running: bool,
}

/// The state after an input.
pub open spec fn after<B: Backend>(app: AppView<B>, input: Input<B>) -> AppView<B> {
    match input {
        Input::App(event) => after_event(app, event),
        Input::Tui { event, status } => after_tui_event(app, event, status),
        Input::PasteBurst { handled } => app,
        Input::OverlayClosed => AppView { overlay: None, deferred: Seq::empty(), ..app },
        Input::Backtrack(state) => AppView { backtrack: state, ..app },
        Input::OpenTranscript => app.with_transcript_open(),
        Input::CutTranscript { keep } => app.with_transcript_cut(keep as nat),
        Input::Failed => app,
    }
}

/// Whether `actions` is what the application does about an input.
pub open spec fn input_actions<B: Backend>(
    app: AppView<B>,
    input: Input<B>,
    actions: Seq<Action<B>>,
) -> bool {
    match input {
        Input::App(AppEvent::ExitRequest) => actions == seq![
            Action::<B>::ClearTerminal,
            Action::<B>::ReportTokenUsage,
        ],
        Input::App(event) => event_actions(app, event, actions),
        Input::Tui { event, status } => tui_actions(app, event, status, actions),
        Input::PasteBurst { handled } => actions == if handled {
            seq![]
        } else {
            seq![Action::<B>::Render]
        },
        Input::OverlayClosed => if app.deferred.len() > 0 {
            &&& actions.len() == 1
            &&& actions[0] matches Action::InsertHistoryLines(lines)
            &&& lines@ == app.deferred
        } else {
            actions == Seq::<Action<B>>::empty()
        },
        Input::OpenTranscript => actions == seq![
            Action::<B>::EnterAltScreen,
            Action::<B>::ScheduleFrame,
        ],
        Input::Backtrack(_) => actions == Seq::<Action<B>>::empty(),
        Input::CutTranscript { .. } => actions == Seq::<Action<B>>::empty(),
        Input::Failed => actions == Seq::<Action<B>>::empty(),
    }
}

/// Whether the loop goes on after an input: it ends where the user leaves, and
/// where an action could not be done.
pub open spec fn goes_on<B: Backend>(input: Input<B>) -> bool {
    match input {
        Input::App(AppEvent::ExitRequest) => false,
        Input::Failed => false,
        _ => true,
    }
}

// ---------------------------------------------------------------------------
// The thread of the animation
// ---------------------------------------------------------------------------

/// What a thread of the animation does once it has looked whether the animation
/// runs.
pub enum ThreadAction<B: Backend> {
    /// Sleep for so many milliseconds, send `event`, and look again.
    Tick { millis: u64, event: AppEvent<B> },
    /// End.
    End,
}

/// What a thread of the animation does once it has looked.
pub open spec fn thread_action<B: Backend>(running: bool, tick_millis: u64) -> ThreadAction<B> {
    if running {
        ThreadAction::Tick { millis: tick_millis, event: AppEvent::CommitTick }
    } else {
        ThreadAction::End
    }
}

/// What a thread of the animation does once it has looked whether the animation
/// runs; `tick_millis` is what it was started with.
pub fn animation_thread<B: Backend>(running: bool, tick_millis: u64) -> (r: ThreadAction<B>)
    ensures
        r == thread_action::<B>(running, tick_millis),
{
    if running {
        ThreadAction::Tick { millis: tick_millis, event: AppEvent::CommitTick }
    } else {
        ThreadAction::End
    }
}

// ---------------------------------------------------------------------------
// The application
// ---------------------------------------------------------------------------

fn append_lines(lines: &mut Vec<Line<'static>>, more: &Vec<Line<'static>>)
    ensures
        final(lines)@ == old(lines)@ + more@,
{
    let mut copy = styled::clone_lines(more);
    lines.append(&mut copy);
}

fn cut_lines(lines: &mut Vec<Line<'static>>, keep: usize)
    ensures
        final(lines)@ == first_lines(old(lines)@, keep as nat),
{
    lines.truncate(keep);
    assert(lines@ =~= first_lines(old(lines)@, keep as nat));
}

impl<B: Backend> App<B> {
    /// The application at its start, and what it does before it waits for its
    /// first event. `keyboard_enhancement` is what the terminal answered when
    /// it was asked for enhanced keys, if it answered.
    pub fn run(
        config: Arc<B::Config>,
        server: Arc<B::Server>,
        keyboard_enhancement: Option<bool>,
        initial_prompt: Option<String>,
        initial_images: Vec<B::Path>,
    ) -> (r: (App<B>, Vec<Action<B>>))
        ensures
            r.0@ == AppView::<B>::initial(config, server, keyboard_enhancement == Some(true)),
            r.0@.wf(),
            r.1@ == seq![
                Action::<B>::StartChatWidget {
                    config,
                    server,
                    initial_prompt,
                    initial_images,
                    enhanced_keys_supported: keyboard_enhancement == Some(true),
                },
                Action::ScheduleFrame,
            ],
    {
        let enhanced_keys_supported = match keyboard_enhancement {
            Some(supported) => supported,
            None => false,
        };
        let app = App {
            config: config.clone(),
            server: server.clone(),
            overlay: None,
            transcript_lines: Vec::new(),
            deferred_history_lines: Vec::new(),
            enhanced_keys_supported,
            commit_anim_running: false,
            backtrack: BacktrackState { primed: false, count: 0 },
        };
        let mut actions: Vec<Action<B>> = Vec::new();
        actions.push(
            Action::StartChatWidget {
                config,
                server,
                initial_prompt,
                initial_images,
                enhanced_keys_supported,
            },
        );
        actions.push(Action::ScheduleFrame);
        (app, actions)
    }

    /// The view that covers the screen, if there is one.
    pub fn overlay(&self) -> (r: Option<&Overlay>)
        ensures
            self@.overlay == (match r {
                Some(overlay) => Some(overlay@),
                None => None,
            }),
    {
        match &self.overlay {
            Some(overlay) => Some(overlay),
            None => None,
        }
    }

    /// Records `recorded` in the transcript and in its overlay where that is
    /// open. Says whether it is.
    fn record_lines(&mut self, recorded: &Vec<Line<'static>>) -> (r: bool)
        ensures
            r == (old(self)@.overlay matches Some(OverlayView::Transcript(_))),
            final(self)@ == old(self)@.with_lines(recorded@, Seq::empty()),
    {
        let mut in_overlay = false;
        match &mut self.overlay {
            Some(Overlay::Transcript(lines)) => {
                append_lines(lines, recorded);
                in_overlay = true;
            },
            _ => {},
        }
        append_lines(&mut self.transcript_lines, recorded);
        proof {
            let then = old(self)@.with_lines(recorded@, Seq::empty());
            assert(self@.deferred =~= then.deferred);
        }
        in_overlay
    }

    /// Reacts to an event from inside the application.
    pub fn handle_event(&mut self, event: AppEvent<B>) -> (r: Step<B>)
        ensures
            final(self)@ == after_event(old(self)@, event),
            event_actions(old(self)@, event, r.actions@),
            r.running == !(event is ExitRequest),
            old(self)@.wf() ==> final(self)@.wf(),
    {
        let mut actions: Vec<Action<B>> = Vec::new();
        let mut running = true;
        match event {
            AppEvent::NewSession => {
                actions.push(Action::CollectTokenUsage);
                actions.push(
                    Action::StartChatWidget {
                        config: self.config.clone(),
                        server: self.server.clone(),
                        initial_prompt: None,
                        initial_images: Vec::new(),
                        enhanced_keys_supported: self.enhanced_keys_supported,
                    },
                );
                actions.push(Action::ScheduleFrame);
            },
            AppEvent::InsertHistoryLines(lines) => {
                if self.record_lines(&lines) {
                    actions.push(Action::ScheduleFrame);
                }
                if self.overlay.is_some() {
                    append_lines(&mut self.deferred_history_lines, &lines);
                } else {
                    actions.push(Action::InsertHistoryLines(lines));
                }
            },
            AppEvent::InsertHistoryCell { transcript, display } => {
                if self.record_lines(&transcript) {
                    actions.push(Action::ScheduleFrame);
                }
                if !display.is_empty() {
                    if self.overlay.is_some() {
                        append_lines(&mut self.deferred_history_lines, &display);
                    } else {
                        actions.push(Action::InsertHistoryLines(display));
                    }
                }
            },
            AppEvent::StartCommitAnimation => {
                if !self.commit_anim_running {
                    self.commit_anim_running = true;
                    actions.push(Action::SpawnCommitAnimation { tick_millis: COMMIT_TICK_MILLIS });
                }
            },
            AppEvent::StopCommitAnimation => {
                self.commit_anim_running = false;
                actions.push(Action::EndCommitAnimation);
            },
            AppEvent::CommitTick => {
                actions.push(Action::CommitTick);
            },
            AppEvent::CodexEvent(event) => {
                actions.push(Action::HandleCodexEvent(event));
            },
            AppEvent::ConversationHistory(history) => {
                actions.push(Action::BacktrackHistory(history));
            },
            AppEvent::ExitRequest => {
                running = false;
            },
            AppEvent::CodexOp(op) => {
                actions.push(Action::SubmitOp(op));
            },
            AppEvent::DiffResult(text) => {
                actions.push(Action::DiffComplete);
                actions.push(Action::EnterAltScreen);
                self.overlay = Some(
                    Overlay::Static {
                        title: "D I F F".to_string(),
                        lines: styled::diff_pager_lines(text.as_str()),
                    },
                );
                actions.push(Action::ScheduleFrame);
            },
            AppEvent::StartFileSearch(query) => {
                if !query.as_str().is_empty() {
                    actions.push(Action::FileSearch(query));
                }
            },
            AppEvent::FileSearchResult { query, matches } => {
                actions.push(Action::ApplyFileSearchResult { query, matches });
            },
            AppEvent::UpdateReasoningEffort(effort) => {
                actions.push(Action::SetReasoningEffort(effort));
            },
            AppEvent::UpdateModel(model) => {
                actions.push(Action::SetModel(model));
            },
            AppEvent::UpdateAskForApprovalPolicy(policy) => {
                actions.push(Action::SetApprovalPolicy(policy));
            },
            AppEvent::UpdateSandboxPolicy(policy) => {
                actions.push(Action::SetSandboxPolicy(policy));
            },
        }
        proof {
            let then = after_event(old(self)@, event);
            assert(self@.deferred =~= then.deferred);
            if !(event is NewSession) {
                assert(actions@ =~= plain_event_actions(old(self)@, event));
            }
        }
        Step { actions, running }
    }

    /// Lets the transcript cover the screen.
    fn open_transcript(&mut self) -> (r: Vec<Action<B>>)
        ensures
            final(self)@ == old(self)@.with_transcript_open(),
            r@ == seq![Action::<B>::EnterAltScreen, Action::<B>::ScheduleFrame],
    {
        let mut actions: Vec<Action<B>> = Vec::new();
        actions.push(Action::EnterAltScreen);
        self.overlay = Some(Overlay::Transcript(styled::clone_lines(&self.transcript_lines)));
        actions.push(Action::ScheduleFrame);
        actions
    }

    /// Cuts the transcript, and its overlay where that is open.
    fn cut_transcript(&mut self, keep: usize)
        ensures
            final(self)@ == old(self)@.with_transcript_cut(keep as nat),
    {
        match &mut self.overlay {
            Some(Overlay::Transcript(lines)) => {
                cut_lines(lines, keep);
            },
            _ => {},
        }
        cut_lines(&mut self.transcript_lines, keep);
    }

    /// Reacts to a key while no overlay is open; `raw` is the key as it came.
    pub fn handle_key_event(
        &mut self,
        key: KeyEvent,
        raw: B::Key,
        status: WidgetStatus,
    ) -> (r: Vec<Action<B>>)
        ensures
            final(self)@ == after_key(old(self)@, key, status),
            r@ == key_actions::<B>(old(self)@, key, raw, status),
            old(self)@.wf() ==> final(self)@.wf(),
    {
        let mut actions: Vec<Action<B>> = Vec::new();
        if key.is_transcript_key() {
            return self.open_transcript();
        }
        match (key.code, key.kind) {
            (KeyCode::Esc, KeyEventKind::Press | KeyEventKind::Repeat) => {
                if status.normal_backtrack_mode && status.composer_is_empty {
                    actions.push(Action::BacktrackEsc);
                } else {
                    actions.push(Action::ForwardKey(raw));
                }
            },
            (
                KeyCode::Enter,
                KeyEventKind::Press,
            ) if self.backtrack.primed && self.backtrack.count > 0 && status.composer_is_empty => {
                actions.push(Action::ConfirmBacktrack);
            },
            (code, KeyEventKind::Press | KeyEventKind::Repeat) => {
                if code != KeyCode::Esc && self.backtrack.primed {
                    self.backtrack = BacktrackState { primed: false, count: 0 };
                    actions.push(Action::ResetBacktrack);
                }
                actions.push(Action::ForwardKey(raw));
            },
            _ => {},
        }
        assert(actions@ =~= key_actions::<B>(old(self)@, key, raw, status));
        actions
    }

    /// Reacts to an event from the terminal. An open overlay takes it; without
    /// one it goes to the chat widget, keys by way of the application's own.
    pub fn handle_tui_event(&mut self, event: TuiEvent<B>, status: WidgetStatus) -> (r:
        Step<B>)
        ensures
            final(self)@ == after_tui_event(old(self)@, event, status),
            tui_actions(old(self)@, event, status, r.actions@),
            r.running,
            old(self)@.wf() ==> final(self)@.wf(),
    {
        let mut actions: Vec<Action<B>> = Vec::new();
        if self.overlay.is_some() {
            actions.push(Action::OverlayEvent(event));
            return Step { actions, running: true };
        }
        match event {
            TuiEvent::Key { key, raw } => {
                actions = self.handle_key_event(key, raw, status);
            },
            TuiEvent::Paste(pasted) => {
                actions.push(Action::HandlePaste(chars::normalize_pasted(pasted.as_str())));
            },
            TuiEvent::Draw => {
                actions.push(Action::PasteBurstTick);
            },
            TuiEvent::AttachImage { path, width, height, format_label } => {
                actions.push(Action::AttachImage { path, width, height, format_label });
            },
        }
        Step { actions, running: true }
    }

    /// Goes on with a draw: it is left out while the chat widget is still
    /// taking in a paste.
    fn on_paste_burst(&self, handled: bool) -> (r: Vec<Action<B>>)
        ensures
            r@ == if handled {
                seq![]
            } else {
                seq![Action::<B>::Render]
            },
    {
        let mut actions: Vec<Action<B>> = Vec::new();
        if !handled {
            actions.push(Action::Render);
        }
        actions
    }

    /// Takes note that the overlay was closed: the lines that waited for it
    /// are shown.
    fn on_overlay_closed(&mut self) -> (r: Vec<Action<B>>)
        ensures
            final(self)@ == after(old(self)@, Input::<B>::OverlayClosed),
            input_actions(old(self)@, Input::<B>::OverlayClosed, r@),
    {
        let mut actions: Vec<Action<B>> = Vec::new();
        let mut lines: Vec<Line<'static>> = Vec::new();
        std::mem::swap(&mut lines, &mut self.deferred_history_lines);
        if !lines.is_empty() {
            actions.push(Action::InsertHistoryLines(lines));
        }
        self.overlay = None;
        actions
    }

    /// Reacts to whatever the loop was waiting for. The loop ends with the
    /// first step that is not `running`. Where the user leaves, the terminal is
    /// cleared and the usage of tokens reported; where an action could not be
    /// done neither happens.
    pub fn step(&mut self, input: Input<B>) -> (r: Step<B>)
        ensures
            final(self)@ == after(old(self)@, input),
            input_actions(old(self)@, input, r.actions@),
            r.running == goes_on(input),
            old(self)@.wf() ==> final(self)@.wf(),
    {
        match input {
            Input::App(event) => {
                let mut step = self.handle_event(event);
                if !step.running {
                    step.actions.push(Action::ClearTerminal);
                    step.actions.push(Action::ReportTokenUsage);
                    assert(step.actions@ =~= seq![
                        Action::<B>::ClearTerminal,
                        Action::<B>::ReportTokenUsage,
                    ]);
                }
                step
            },
            Input::Tui { event, status } => self.handle_tui_event(event, status),
            Input::PasteBurst { handled } => Step {
                actions: self.on_paste_burst(handled),
                running: true,
            },
            Input::OverlayClosed => Step { actions: self.on_overlay_closed(), running: true },
            Input::Backtrack(state) => {
                self.backtrack = state;
                Step { actions: Vec::new(), running: true }
            },
            Input::OpenTranscript => Step { actions: self.open_transcript(), running: true },
            Input::CutTranscript { keep } => {
                self.cut_transcript(keep);
                Step { actions: Vec::new(), running: true }
            },
            Input::Failed => Step { actions: Vec::new(), running: false },
        }
    }
}

} // verus!
