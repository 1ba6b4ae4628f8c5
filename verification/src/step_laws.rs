//! What holds of every single step of the application, whatever its state is.

use std::sync::Arc;

use ratatui::text::Line;
use vstd::prelude::*;

use crate::app::{
    animation_thread, App, AppView, BacktrackState, Input, Overlay, OverlayView, Step, ThreadAction,
    WidgetStatus,
};
use crate::app_event::{Action, AppEvent, TuiEvent};
use crate::chars;
use crate::chars::{are_lines, joined, EndedLine};
use crate::key::{KeyCode, KeyEvent, KeyEventKind};
use crate::protocol::Backend;
use crate::styled;
use crate::styled::{line_spans, PagerLine, PagerLineView};

verus! {

// ---------------------------------------------------------------------------
// Start
// ---------------------------------------------------------------------------

/// The application starts one chat widget, with everything that it was given
/// itself, and asks for a frame. Nothing covers the screen, nothing was said
/// yet, nothing waits and nothing is armed. The keys are taken to be enhanced
/// only where the terminal said so.
pub proof fn law_application_starts_afresh<B: Backend>(
    config: Arc<B::Config>,
    server: Arc<B::Server>,
    keyboard_enhancement: Option<bool>,
    initial_prompt: Option<String>,
    initial_images: Vec<B::Path>,
    r: (App<B>, Vec<Action<B>>),
)
    requires
        call_ensures(
            App::<B>::run,
            (config, server, keyboard_enhancement, initial_prompt, initial_images),
            r,
        ),
    ensures
        r.1@.len() == 2,
        r.1@[0] == (Action::<B>::StartChatWidget {
            config,
            server,
            initial_prompt,
            initial_images,
            enhanced_keys_supported: keyboard_enhancement is Some && keyboard_enhancement->0,
        }),
        r.1@[1] == Action::<B>::ScheduleFrame,
        r.0@.config == config,
        r.0@.server == server,
        r.0@.enhanced_keys_supported <==> keyboard_enhancement is Some && keyboard_enhancement->0,
        r.0@.overlay is None,
        r.0@.transcript.len() == 0,
        r.0@.deferred.len() == 0,
        !r.0@.commit_anim_running,
        !r.0@.backtrack.primed,
        r.0@.backtrack.count == 0,
{
}

/// The overlay that can be asked for is the one that covers the screen: it has
/// the same lines, and each line the same text.
pub proof fn law_overlay_is_what_covers_the_screen<B: Backend>(
    app: &App<B>,
    r: Option<&Overlay>,
)
    requires
        call_ensures(App::<B>::overlay, (app,), r),
    ensures
        match app@.overlay {
            None => r is None,
            Some(OverlayView::Transcript(lines)) => r matches Some(Overlay::Transcript(shown))
                && shown@ == lines,
            Some(OverlayView::Static { title, lines }) => r matches Some(
                Overlay::Static { title: shown_title, lines: shown },
            ) && shown_title@ == title && shown@.len() == lines.len() && forall|i: int|
                0 <= i < lines.len() ==> (match #[trigger] shown@[i] {
                    PagerLine::Ansi(text) => lines[i] == PagerLineView::Ansi(text@),
                    PagerLine::Styled(line) => lines[i] == PagerLineView::Styled(line_spans(line)),
                }),
        },
{
    if let Some(Overlay::Static { title, lines }) = r {
        let views = styled::pager_views(lines@);
        assert(views.len() == lines@.len());
        assert forall|i: int| 0 <= i < lines@.len() implies views[i] == (#[trigger] lines@[i])@ by {
        }
    }
}

// ---------------------------------------------------------------------------
// Events from inside the application
// ---------------------------------------------------------------------------

/// In every state, whatever covers the screen and whatever is going on, an event
/// of the agent goes to the chat widget, a request to the agent, a history to
/// the backtracking, a result of a search and a change of settings to the chat
/// widget: each by one action that holds what came, and nothing else is done or
/// changed.
pub proof fn law_events_are_handed_on<B: Backend>(
    app: &mut App<B>,
    event: AppEvent<B>,
    r: Step<B>,
)
    requires
        call_ensures(App::<B>::step, (app, Input::App(event)), r),
    ensures
        event matches AppEvent::CodexEvent(e) ==> r.actions@ == seq![
            Action::<B>::HandleCodexEvent(e),
        ],
        event matches AppEvent::CodexOp(op) ==> r.actions@ == seq![Action::<B>::SubmitOp(op)],
        event matches AppEvent::ConversationHistory(history) ==> r.actions@ == seq![
            Action::<B>::BacktrackHistory(history),
        ],
        event matches AppEvent::FileSearchResult { query, matches } ==> r.actions@ == seq![
            Action::<B>::ApplyFileSearchResult { query, matches },
        ],
        event is CommitTick ==> r.actions@ == seq![Action::<B>::CommitTick],
        event matches AppEvent::UpdateReasoningEffort(effort) ==> r.actions@ == seq![
            Action::<B>::SetReasoningEffort(effort),
        ],
        event matches AppEvent::UpdateModel(model) ==> r.actions@ == seq![
            Action::<B>::SetModel(model),
        ],
        event matches AppEvent::UpdateAskForApprovalPolicy(policy) ==> r.actions@ == seq![
            Action::<B>::SetApprovalPolicy(policy),
        ],
        event matches AppEvent::UpdateSandboxPolicy(policy) ==> r.actions@ == seq![
            Action::<B>::SetSandboxPolicy(policy),
        ],
        event is CodexEvent || event is CodexOp || event is ConversationHistory
            || event is FileSearchResult || event is CommitTick || event is UpdateReasoningEffort
            || event is UpdateModel || event is UpdateAskForApprovalPolicy
            || event is UpdateSandboxPolicy || event is StartFileSearch || event is NewSession
            || event is ExitRequest ==> final(app)@ == old(app)@,
        r.running <==> !(event is ExitRequest),
{
}

/// Every search is started for just what was asked, unless nothing was asked.
pub proof fn law_searches_are_started<B: Backend>(app: &mut App<B>, query: String, r: Step<B>)
    requires
        call_ensures(App::<B>::step, (app, Input::App(AppEvent::StartFileSearch(query))), r),
    ensures
        query@.len() > 0 ==> r.actions@ == seq![Action::<B>::FileSearch(query)],
        query@.len() == 0 ==> r.actions@.len() == 0,
{
}

/// A new session counts the tokens of the old one, starts a chat widget from
/// what the application was started with, without prompt or images, and asks
/// for a frame, in this order, whatever the state is.
pub proof fn law_new_session_is_blank<B: Backend>(app: &mut App<B>, r: Step<B>)
    requires
        call_ensures(App::<B>::step, (app, Input::App(AppEvent::NewSession)), r),
    ensures
        r.actions@.len() == 3,
        r.actions@[0] == Action::<B>::CollectTokenUsage,
        r.actions@[1] matches Action::StartChatWidget {
            config,
            server,
            initial_prompt,
            initial_images,
            enhanced_keys_supported,
        } && config == old(app)@.config && server == old(app)@.server && initial_prompt is None
            && initial_images@.len() == 0 && enhanced_keys_supported
            == old(app)@.enhanced_keys_supported,
        r.actions@[2] == Action::<B>::ScheduleFrame,
        final(app)@ == old(app)@,
        r.running,
{
}

/// Leaving clears the terminal first and then reports the usage of tokens, and
/// ends the loop, whatever the state is. So does nothing else but a failure,
/// which leaves the terminal alone.
pub proof fn law_only_leaving_and_failing_end_the_loop<B: Backend>(
    app: &mut App<B>,
    input: Input<B>,
    r: Step<B>,
)
    requires
        call_ensures(App::<B>::step, (app, input), r),
    ensures
        !r.running <==> (input matches Input::App(event) && event is ExitRequest)
            || input is Failed,
        input matches Input::App(AppEvent::ExitRequest) ==> r.actions@ == seq![
            Action::<B>::ClearTerminal,
            Action::<B>::ReportTokenUsage,
        ],
        input is Failed ==> r.actions@.len() == 0,
        !r.running ==> final(app)@ == old(app)@,
{
}

/// Lines for the history are added to the end of the transcript, and of its
/// overlay where that is open, which is drawn again then. They are shown at once
/// where nothing covers the screen, and else wait behind those that wait
/// already.
pub proof fn law_lines_are_recorded_and_shown<B: Backend>(
    app: &mut App<B>,
    lines: Vec<Line<'static>>,
    r: Step<B>,
)
    requires
        call_ensures(App::<B>::step, (app, Input::App(AppEvent::InsertHistoryLines(lines))), r),
    ensures
        final(app)@.transcript == old(app)@.transcript + lines@,
        match old(app)@.overlay {
            None => r.actions@ == seq![Action::<B>::InsertHistoryLines(lines)] && final(app)@.overlay
                is None && final(app)@.deferred == old(app)@.deferred,
            Some(OverlayView::Transcript(shown)) => r.actions@ == seq![Action::<B>::ScheduleFrame]
                && final(app)@.overlay == Some(OverlayView::Transcript(shown + lines@)) && final(
                app)@.deferred == old(app)@.deferred + lines@,
            Some(OverlayView::Static { .. }) => r.actions@.len() == 0 && final(app)@.overlay
                == old(app)@.overlay && final(app)@.deferred == old(app)@.deferred + lines@,
        },
        keeps_the_rest(old(app)@, final(app)@),
{
}

/// A cell of the history gives its own lines to the transcript and others to the
/// screen. Where it has none for the screen nothing is shown.
pub proof fn law_cells_are_recorded_and_shown<B: Backend>(
    app: &mut App<B>,
    transcript: Vec<Line<'static>>,
    display: Vec<Line<'static>>,
    r: Step<B>,
)
    requires
        call_ensures(
            App::<B>::step,
            (app, Input::App(AppEvent::InsertHistoryCell { transcript, display })),
            r,
        ),
    ensures
        final(app)@.transcript == old(app)@.transcript + transcript@,
        match old(app)@.overlay {
            None => final(app)@.overlay is None && final(app)@.deferred == old(app)@.deferred
                && if display@.len() > 0 {
                r.actions@ == seq![Action::<B>::InsertHistoryLines(display)]
            } else {
                r.actions@.len() == 0
            },
            Some(OverlayView::Transcript(shown)) => r.actions@ == seq![Action::<B>::ScheduleFrame]
                && final(app)@.overlay == Some(OverlayView::Transcript(shown + transcript@))
                && final(app)@.deferred == old(app)@.deferred + display@,
            Some(OverlayView::Static { .. }) => r.actions@.len() == 0 && final(app)@.overlay
                == old(app)@.overlay && final(app)@.deferred == old(app)@.deferred + display@,
        },
        keeps_the_rest(old(app)@, final(app)@),
{
}

/// Nothing differs but the lines: neither what the application was started with
/// nor the animation nor the backtracking.
pub open spec fn keeps_the_rest<B: Backend>(before: AppView<B>, then: AppView<B>) -> bool {
    &&& then.config == before.config
    &&& then.server == before.server
    &&& then.enhanced_keys_supported == before.enhanced_keys_supported
    &&& then.commit_anim_running == before.commit_anim_running
    &&& then.backtrack == before.backtrack
}

/// A diff covers the screen, in every state, under its title; the chat widget
/// learns first that it is there. The pager has a line for each line of the
/// diff, with its text, in order, or a note in italics where the diff is blank.
pub proof fn law_diff_covers_the_screen<B: Backend>(
    app: &mut App<B>,
    text: String,
    r: Step<B>,
    lines: Seq<EndedLine>,
    rest: Seq<char>,
)
    requires
        call_ensures(App::<B>::step, (app, Input::App(AppEvent::DiffResult(text))), r),
        text@ == joined(lines, rest),
        are_lines(lines),
        !rest.contains('\n'),
    ensures
        r.actions@ == seq![
            Action::<B>::DiffComplete,
            Action::<B>::EnterAltScreen,
            Action::<B>::ScheduleFrame,
        ],
        final(app)@.overlay matches Some(OverlayView::Static { title, lines: shown }) && title
            == seq!['D', ' ', 'I', ' ', 'F', ' ', 'F'] && if chars::is_blank_text(text@) {
            shown == seq![PagerLineView::Styled(seq![("No changes detected."@, 4u16)])]
        } else {
            shown == lines.map_values(|line: EndedLine| PagerLineView::Ansi(line.text))
                + if rest.len() == 0 {
                Seq::<PagerLineView>::empty()
            } else {
                seq![PagerLineView::Ansi(rest)]
            }
        },
        final(app)@.transcript == old(app)@.transcript,
        final(app)@.deferred == old(app)@.deferred,
        keeps_the_rest(old(app)@, final(app)@),
{
    reveal_strlit("D I F F");
    assert("D I F F"@ =~= seq!['D', ' ', 'I', ' ', 'F', ' ', 'F']);
    chars::lemma_lines_of_joined(lines, rest);
    if !chars::is_blank_text(text@) {
        assert(styled::diff_pager(text@) =~= lines.map_values(
            |line: EndedLine| PagerLineView::Ansi(line.text),
        ) + if rest.len() == 0 {
            Seq::<PagerLineView>::empty()
        } else {
            seq![PagerLineView::Ansi(rest)]
        });
    }
}

/// The animation is started where it does not run, with a thread that ticks
/// every 50 milliseconds, and is left alone where it runs. It is stopped
/// whether or not it runs. Nothing else starts or stops it.
pub proof fn law_animation_is_started_and_stopped<B: Backend>(
    app: &mut App<B>,
    input: Input<B>,
    r: Step<B>,
)
    requires
        call_ensures(App::<B>::step, (app, input), r),
    ensures
        input matches Input::App(AppEvent::StartCommitAnimation) ==> final(app)@
            == (AppView { commit_anim_running: true, ..old(app)@ })
            && if old(app)@.commit_anim_running {
            r.actions@.len() == 0
        } else {
            r.actions@ == seq![Action::<B>::SpawnCommitAnimation { tick_millis: 50 }]
        },
        input matches Input::App(AppEvent::StopCommitAnimation) ==> final(app)@
            == (AppView { commit_anim_running: false, ..old(app)@ }) && r.actions@ == seq![
            Action::<B>::EndCommitAnimation,
        ],
        final(app)@.commit_anim_running != old(app)@.commit_anim_running ==> (
        input matches Input::App(event) && (event is StartCommitAnimation
            || event is StopCommitAnimation)),
{
}

/// A thread of the animation ticks as long as the animation runs, at the pace
/// that it was given, and ends once it does not.
pub proof fn law_thread_ticks_while_the_animation_runs<B: Backend>(
    running: bool,
    tick_millis: u64,
    r: ThreadAction<B>,
)
    requires
        call_ensures(animation_thread::<B>, (running, tick_millis), r),
    ensures
        r is End <==> !running,
        running ==> r == (ThreadAction::<B>::Tick {
            millis: tick_millis,
            event: AppEvent::CommitTick,
        }),
{
}

// ---------------------------------------------------------------------------
// The terminal
// ---------------------------------------------------------------------------

/// While something covers the screen it gets every event of the terminal as it
/// came, and nobody else gets it.
pub proof fn law_overlay_gets_every_terminal_event<B: Backend>(
    app: &mut App<B>,
    event: TuiEvent<B>,
    status: WidgetStatus,
    r: Step<B>,
)
    requires
        call_ensures(App::<B>::step, (app, Input::Tui { event, status }), r),
        old(app)@.overlay is Some,
    ensures
        r.actions@ == seq![Action::<B>::OverlayEvent(event)],
        final(app)@ == old(app)@,
        r.running,
{
}

/// While nothing covers the screen, pasted text goes to the chat widget with its
/// carriage returns as line feeds and otherwise as it came, an image as it came,
/// and a draw begins with the paste that may be coming in. None of them changes
/// the state.
pub proof fn law_widget_gets_pastes_and_images<B: Backend>(
    app: &mut App<B>,
    event: TuiEvent<B>,
    status: WidgetStatus,
    r: Step<B>,
)
    requires
        call_ensures(App::<B>::step, (app, Input::Tui { event, status }), r),
        old(app)@.overlay is None,
        !(event is Key),
    ensures
        final(app)@ == old(app)@,
        r.running,
        r.actions@.len() == 1,
        match event {
            TuiEvent::Paste(pasted) => r.actions@[0] matches Action::HandlePaste(text)
                && text@.len() == pasted@.len() && forall|i: int|
                0 <= i < pasted@.len() ==> #[trigger] text@[i] == (if pasted@[i] == '\r' {
                    '\n'
                } else {
                    pasted@[i]
                }),
            TuiEvent::Draw => r.actions@[0] == Action::<B>::PasteBurstTick,
            TuiEvent::AttachImage { path, width, height, format_label } => r.actions@[0]
                == (Action::<B>::AttachImage { path, width, height, format_label }),
            TuiEvent::Key { .. } => true,
        },
{
    if let TuiEvent::Paste(pasted) = event {
        chars::law_pasted_text_keeps_its_characters(pasted@);
    }
}

/// The chat widget is drawn unless it is still taking in a paste.
pub proof fn law_draw_waits_for_a_paste<B: Backend>(app: &mut App<B>, handled: bool, r: Step<B>)
    requires
        call_ensures(App::<B>::step, (app, Input::PasteBurst { handled }), r),
    ensures
        handled ==> r.actions@.len() == 0,
        !handled ==> r.actions@ == seq![Action::<B>::Render],
        final(app)@ == old(app)@,
{
}

/// T with Control alone goes down.
pub open spec fn is_control_t(key: KeyEvent) -> bool {
    key.code == KeyCode::Char('t') && key.modifiers == 2 && key.kind == KeyEventKind::Press
}

/// Esc goes down, or is held, and the chat widget has no use for it.
pub open spec fn is_free_esc(key: KeyEvent, status: WidgetStatus) -> bool {
    key.code == KeyCode::Esc && key.kind != KeyEventKind::Release && status.normal_backtrack_mode
        && status.composer_is_empty
}

/// Enter goes down where a message is selected and nothing was typed.
pub open spec fn is_confirmation(
    backtrack: BacktrackState,
    key: KeyEvent,
    status: WidgetStatus,
) -> bool {
    key.code == KeyCode::Enter && key.kind == KeyEventKind::Press && backtrack.primed
        && backtrack.count > 0 && status.composer_is_empty
}

/// Every key that goes down or is held reaches the chat widget, once and as it
/// came, in every state and whatever the widget says of itself, but for three:
/// Control and T opens the transcript, Esc takes the backtracking further where
/// the widget has no use for it, and Enter confirms a selection. A key that is
/// let go is passed over.
pub proof fn law_every_other_key_is_forwarded<B: Backend>(
    app: &mut App<B>,
    key: KeyEvent,
    raw: B::Key,
    status: WidgetStatus,
    r: Step<B>,
)
    requires
        call_ensures(
            App::<B>::step,
            (app, Input::Tui { event: TuiEvent::Key { key, raw }, status }),
            r,
        ),
        old(app)@.overlay is None,
    ensures
        r.running,
        key.kind == KeyEventKind::Release ==> r.actions@.len() == 0 && final(app)@ == old(app)@,
        is_control_t(key) ==> r.actions@ == seq![
            Action::<B>::EnterAltScreen,
            Action::<B>::ScheduleFrame,
        ] && final(app)@ == (AppView {
            overlay: Some(OverlayView::Transcript(old(app)@.transcript)),
            ..old(app)@
        }),
        is_free_esc(key, status) ==> r.actions@ == seq![Action::<B>::BacktrackEsc] && final(app)@
            == old(app)@,
        is_confirmation(old(app)@.backtrack, key, status) ==> r.actions@ == seq![
            Action::<B>::ConfirmBacktrack,
        ] && final(app)@ == old(app)@,
        key.kind != KeyEventKind::Release && !is_control_t(key) && !is_free_esc(key, status)
            && !is_confirmation(old(app)@.backtrack, key, status) ==> {
            &&& r.actions@.len() > 0
            &&& r.actions@.last() == Action::<B>::ForwardKey(raw)
            &&& r.actions@.drop_last() == if key.code != KeyCode::Esc && old(app)@.backtrack.primed {
                seq![Action::<B>::ResetBacktrack]
            } else {
                Seq::<Action<B>>::empty()
            }
            &&& final(app)@ == if key.code != KeyCode::Esc && old(app)@.backtrack.primed {
                AppView { backtrack: BacktrackState { primed: false, count: 0 }, ..old(app)@ }
            } else {
                old(app)@
            }
        },
{
    if old(app)@.overlay is None {
        assert(r.actions@.len() > 0 ==> r.actions@.drop_last().len() == r.actions@.len() - 1);
    }
}

// ---------------------------------------------------------------------------
// The overlay and the backtracking
// ---------------------------------------------------------------------------

/// Closing the overlay shows all the lines that waited, at once and in order,
/// and nothing where none waited; nothing waits afterwards.
pub proof fn law_closing_shows_what_waited<B: Backend>(app: &mut App<B>, r: Step<B>)
    requires
        call_ensures(App::<B>::step, (app, Input::<B>::OverlayClosed), r),
    ensures
        old(app)@.deferred.len() == 0 ==> r.actions@.len() == 0,
        old(app)@.deferred.len() > 0 ==> r.actions@.len() == 1 && (
        r.actions@[0] matches Action::InsertHistoryLines(lines) && lines@ == old(app)@.deferred),
        final(app)@.overlay is None,
        final(app)@.deferred.len() == 0,
        final(app)@.transcript == old(app)@.transcript,
        keeps_the_rest(old(app)@, final(app)@),
{
}

/// Where the backtracking moves, that is noted and nothing else. Where it wants
/// the transcript, that covers the screen, all of it. Where it goes back, the
/// transcript loses its end.
pub proof fn law_backtracking_is_followed<B: Backend>(
    app: &mut App<B>,
    input: Input<B>,
    r: Step<B>,
)
    requires
        call_ensures(App::<B>::step, (app, input), r),
    ensures
        input matches Input::Backtrack(state) ==> r.actions@.len() == 0 && final(app)@
            == (AppView { backtrack: state, ..old(app)@ }),
        input is OpenTranscript ==> r.actions@ == seq![
            Action::<B>::EnterAltScreen,
            Action::<B>::ScheduleFrame,
        ] && final(app)@ == (AppView {
            overlay: Some(OverlayView::Transcript(old(app)@.transcript)),
            ..old(app)@
        }),
        input matches Input::CutTranscript { keep } ==> r.actions@.len() == 0 && final(
            app)@.transcript.is_prefix_of(old(app)@.transcript) && final(app)@.transcript.len() == (
        if keep < old(app)@.transcript.len() {
            keep as nat
        } else {
            old(app)@.transcript.len()
        }) && final(app)@.deferred == old(app)@.deferred && keeps_the_rest(old(app)@, final(app)@)
            && match old(app)@.overlay {
            Some(OverlayView::Transcript(shown)) => final(app)@.overlay
                matches Some(OverlayView::Transcript(left)) && left.is_prefix_of(shown)
                && left.len() == (if keep < shown.len() {
                keep as nat
            } else {
                shown.len()
            }),
            other => final(app)@.overlay == other,
        },
{
    if let Input::CutTranscript { keep } = input {
        let kept = final(app)@.transcript;
        assert(kept =~= old(app)@.transcript.subrange(0, kept.len() as int));
        if let Some(OverlayView::Transcript(shown)) = old(app)@.overlay {
            if let Some(OverlayView::Transcript(left)) = final(app)@.overlay {
                assert(left =~= shown.subrange(0, left.len() as int));
            }
        }
    }
}

/// Only a key, or the backtracking itself, changes how far the backtracking has
/// come.
pub proof fn law_nothing_else_moves_the_backtracking<B: Backend>(
    app: &mut App<B>,
    input: Input<B>,
    r: Step<B>,
)
    requires
        call_ensures(App::<B>::step, (app, input), r),
        !(input is Backtrack),
        !(input is Tui),
    ensures
        final(app)@.backtrack == old(app)@.backtrack,
        final(app)@.config == old(app)@.config,
        final(app)@.server == old(app)@.server,
        final(app)@.enhanced_keys_supported == old(app)@.enhanced_keys_supported,
{
}

// ---------------------------------------------------------------------------
// The handlers
// ---------------------------------------------------------------------------

/// The handlers do what the step does that calls them: from the same state they
/// come to the same state. The step adds what is done on leaving, and nothing
/// else.
pub proof fn law_step_leaves_it_to_the_handlers<B: Backend>(
    stepped: &mut App<B>,
    handled: &mut App<B>,
    event: AppEvent<B>,
    step: Step<B>,
    r: Step<B>,
)
    requires
        old(stepped)@ == old(handled)@,
        call_ensures(App::<B>::step, (stepped, Input::App(event)), step),
        call_ensures(App::<B>::handle_event, (handled, event), r),
    ensures
        final(handled)@ == final(stepped)@,
        r.running == step.running,
        event is ExitRequest ==> r.actions@.len() == 0,
        !(event is ExitRequest) ==> r.actions@.len() == step.actions@.len(),
        !(event is ExitRequest) && !(event is NewSession) ==> r.actions@ == step.actions@,
        event is NewSession ==> r.actions@[0] == Action::<B>::CollectTokenUsage && (
        r.actions@[1] matches Action::StartChatWidget {
            config,
            server,
            initial_prompt,
            initial_images,
            enhanced_keys_supported,
        } && config == old(handled)@.config && server == old(handled)@.server
            && initial_prompt is None && initial_images@.len() == 0 && enhanced_keys_supported
            == old(handled)@.enhanced_keys_supported) && r.actions@[2]
            == Action::<B>::ScheduleFrame,
{
}

/// An event of the terminal is handled the same way by its handler as by a step.
pub proof fn law_terminal_handler_agrees<B: Backend>(
    stepped: &mut App<B>,
    handled: &mut App<B>,
    event: TuiEvent<B>,
    status: WidgetStatus,
    step: Step<B>,
    r: Step<B>,
)
    requires
        old(stepped)@ == old(handled)@,
        call_ensures(App::<B>::step, (stepped, Input::Tui { event, status }), step),
        call_ensures(App::<B>::handle_tui_event, (handled, event, status), r),
    ensures
        final(handled)@ == final(stepped)@,
        r.running && step.running,
        r.actions@.len() == step.actions@.len(),
        old(handled)@.overlay is Some || !(event is Paste) ==> r.actions@ == step.actions@,
        old(handled)@.overlay is None && event is Paste ==> r.actions@[0] is HandlePaste
            && step.actions@[0] is HandlePaste && r.actions@[0]->HandlePaste_0@
            == step.actions@[0]->HandlePaste_0@,
{
}

/// A key is handled the same way by its own handler as by a step, while nothing
/// covers the screen.
pub proof fn law_key_handler_agrees<B: Backend>(
    stepped: &mut App<B>,
    handled: &mut App<B>,
    key: KeyEvent,
    raw: B::Key,
    status: WidgetStatus,
    step: Step<B>,
    r: Vec<Action<B>>,
)
    requires
        old(stepped)@ == old(handled)@,
        old(stepped)@.overlay is None,
        call_ensures(
            App::<B>::step,
            (stepped, Input::Tui { event: TuiEvent::Key { key, raw }, status }),
            step,
        ),
        call_ensures(App::<B>::handle_key_event, (handled, key, raw, status), r),
    ensures
        final(handled)@ == final(stepped)@,
        r@ == step.actions@,
{
}

} // verus!
