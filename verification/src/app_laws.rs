//! What holds of the application over a whole run.

use std::sync::Arc;

use ratatui::text::Line;
use vstd::prelude::*;

use crate::app::{
    after, after_key, confirms_backtrack, input_actions, key_actions, starts_blank_widget,
    thread_action, AppView, Input, OverlayView, WidgetStatus,
};
use crate::app_event::{Action, AppEvent, COMMIT_TICK_MILLIS};
use crate::key::{KeyCode, KeyEvent};
use crate::protocol::Backend;

verus! {

// ---------------------------------------------------------------------------
// Runs
// ---------------------------------------------------------------------------

/// The state after `inputs`, one after the other.
pub open spec fn run_from<B: Backend>(app: AppView<B>, inputs: Seq<Input<B>>) -> AppView<B>
    decreases inputs.len(),
{
    if inputs.len() == 0 {
        app
    } else {
        after(run_from(app, inputs.drop_last()), inputs.last())
    }
}

/// `actions[i]` is what the application does about `inputs[i]`, for each `i`.
pub open spec fn is_run<B: Backend>(
    app: AppView<B>,
    inputs: Seq<Input<B>>,
    actions: Seq<Seq<Action<B>>>,
) -> bool
    decreases inputs.len(),
{
    &&& actions.len() == inputs.len()
    &&& inputs.len() > 0 ==> {
        &&& is_run(app, inputs.drop_last(), actions.drop_last())
        &&& input_actions(run_from(app, inputs.drop_last()), inputs.last(), actions.last())
    }
}

/// The lines that an input brings for the transcript.
pub open spec fn recorded<B: Backend>(input: Input<B>) -> Seq<Line<'static>> {
    match input {
        Input::App(AppEvent::InsertHistoryLines(lines)) => lines@,
        Input::App(AppEvent::InsertHistoryCell { transcript, display }) => transcript@,
        _ => Seq::empty(),
    }
}

/// The lines that an input brings for the main screen.
pub open spec fn displayed<B: Backend>(input: Input<B>) -> Seq<Line<'static>> {
    match input {
        Input::App(AppEvent::InsertHistoryLines(lines)) => lines@,
        Input::App(AppEvent::InsertHistoryCell { transcript, display }) => display@,
        _ => Seq::empty(),
    }
}

/// The lines that `actions` show on the main screen.
pub open spec fn shown<B: Backend>(actions: Seq<Action<B>>) -> Seq<Line<'static>>
    decreases actions.len(),
{
    if actions.len() == 0 {
        Seq::empty()
    } else {
        shown(actions.drop_last()) + match actions.last() {
            Action::InsertHistoryLines(lines) => lines@,
            _ => Seq::empty(),
        }
    }
}

/// The lines that a run brings for the transcript.
pub open spec fn all_recorded<B: Backend>(inputs: Seq<Input<B>>) -> Seq<Line<'static>>
    decreases inputs.len(),
{
    if inputs.len() == 0 {
        Seq::empty()
    } else {
        all_recorded(inputs.drop_last()) + recorded(inputs.last())
    }
}

/// The lines that a run brings for the main screen.
pub open spec fn all_displayed<B: Backend>(inputs: Seq<Input<B>>) -> Seq<Line<'static>>
    decreases inputs.len(),
{
    if inputs.len() == 0 {
        Seq::empty()
    } else {
        all_displayed(inputs.drop_last()) + displayed(inputs.last())
    }
}

/// The lines that a run shows on the main screen.
pub open spec fn all_shown<B: Backend>(actions: Seq<Seq<Action<B>>>) -> Seq<Line<'static>>
    decreases actions.len(),
{
    if actions.len() == 0 {
        Seq::empty()
    } else {
        all_shown(actions.drop_last()) + shown(actions.last())
    }
}

// ---------------------------------------------------------------------------
// Laws
// ---------------------------------------------------------------------------

proof fn lemma_after_keeps_wf<B: Backend>(app: AppView<B>, input: Input<B>)
    requires
        app.wf(),
    ensures
        after(app, input).wf(),
{
}

/// The application's invariant holds after every run from its start: an open
/// transcript shows every line of the transcript, and lines wait only while an
/// overlay is open.
pub proof fn law_invariant<B: Backend>(
    config: Arc<B::Config>,
    server: Arc<B::Server>,
    enhanced_keys_supported: bool,
    inputs: Seq<Input<B>>,
)
    ensures
        run_from(AppView::<B>::initial(config, server, enhanced_keys_supported), inputs).wf(),
    decreases inputs.len(),
{
    if inputs.len() > 0 {
        law_invariant(config, server, enhanced_keys_supported, inputs.drop_last());
        lemma_after_keeps_wf(
            run_from(
                AppView::<B>::initial(config, server, enhanced_keys_supported),
                inputs.drop_last(),
            ),
            inputs.last(),
        );
    }
}

/// As long as the backtracking does not cut it, the transcript keeps every
/// line: after a run it is what it was before, followed by every line that came
/// for it, in the order in which the lines came.
pub proof fn law_transcript_keeps_every_line<B: Backend>(app: AppView<B>, inputs: Seq<Input<B>>)
    requires
        forall|i: int| 0 <= i < inputs.len() ==> !(#[trigger] inputs[i] is CutTranscript),
    ensures
        run_from(app, inputs).transcript == app.transcript + all_recorded(inputs),
    decreases inputs.len(),
{
    if inputs.len() > 0 {
        let init = inputs.drop_last();
        assert forall|i: int| 0 <= i < init.len() implies !(#[trigger] init[i] is CutTranscript) by {
            assert(init[i] == inputs[i]);
        }
        law_transcript_keeps_every_line(app, init);
        let before = run_from(app, init);
        assert(!(inputs[inputs.len() - 1] is CutTranscript));
        assert(after(before, inputs.last()).transcript =~= before.transcript + recorded(
            inputs.last(),
        ));
    }
    assert(run_from(app, inputs).transcript =~= app.transcript + all_recorded(inputs));
}

/// A cut takes lines from the end of the transcript only, and no more than it
/// has to.
pub proof fn law_cut_keeps_the_beginning<B: Backend>(app: AppView<B>, keep: usize)
    ensures
        after(app, Input::<B>::CutTranscript { keep }).transcript.is_prefix_of(app.transcript),
        after(app, Input::<B>::CutTranscript { keep }).transcript.len() == (if keep
            < app.transcript.len() {
            keep as nat
        } else {
            app.transcript.len()
        }),
{
    let kept = after(app, Input::<B>::CutTranscript { keep }).transcript;
    assert(kept =~= app.transcript.subrange(0, kept.len() as int));
}

proof fn lemma_shown_of_one<B: Backend>(action: Action<B>)
    ensures
        shown(seq![action]) == (match action {
            Action::InsertHistoryLines(lines) => lines@,
            _ => Seq::<Line<'static>>::empty(),
        }),
{
    reveal_with_fuel(shown, 2);
    assert(seq![action].drop_last() =~= Seq::<Action<B>>::empty());
}

proof fn lemma_step_shows_or_defers<B: Backend>(
    app: AppView<B>,
    input: Input<B>,
    actions: Seq<Action<B>>,
)
    requires
        app.wf(),
        input_actions(app, input, actions),
    ensures
        shown(actions) + after(app, input).deferred == app.deferred + displayed(input),
{
    reveal_with_fuel(shown, 4);
    if actions.len() == 1 {
        assert(actions =~= seq![actions[0]]);
        lemma_shown_of_one(actions[0]);
    }
    if actions.len() == 2 {
        assert(actions.drop_last() =~= seq![actions[0]]);
        lemma_shown_of_one(actions[0]);
    }
    if actions.len() == 3 {
        assert(actions.drop_last().drop_last() =~= seq![actions[0]]);
        lemma_shown_of_one(actions[0]);
    }
    assert(shown(actions) + after(app, input).deferred =~= app.deferred + displayed(input));
}

/// No line for the main screen is lost, doubled or moved: at any time the
/// lines that were shown, followed by those that wait for the overlay to close,
/// are the lines that came, in the order in which they came.
pub proof fn law_every_line_is_shown_once<B: Backend>(
    app: AppView<B>,
    inputs: Seq<Input<B>>,
    actions: Seq<Seq<Action<B>>>,
)
    requires
        app.wf(),
        is_run(app, inputs, actions),
    ensures
        run_from(app, inputs).wf(),
        all_shown(actions) + run_from(app, inputs).deferred == app.deferred + all_displayed(inputs),
    decreases inputs.len(),
{
    if inputs.len() > 0 {
        law_every_line_is_shown_once(app, inputs.drop_last(), actions.drop_last());
        let before = run_from(app, inputs.drop_last());
        lemma_after_keeps_wf(before, inputs.last());
        lemma_step_shows_or_defers(before, inputs.last(), actions.last());
        let a = all_shown(actions.drop_last());
        let b = shown(actions.last());
        let then = after(before, inputs.last()).deferred;
        assert((a + b) + then =~= a + (b + then));
        assert(a + (before.deferred + displayed(inputs.last())) =~= (a + before.deferred)
            + displayed(inputs.last()));
        assert((app.deferred + all_displayed(inputs.drop_last())) + displayed(inputs.last())
            =~= app.deferred + all_displayed(inputs));
    } else {
        assert(all_shown(actions) + app.deferred =~= app.deferred + all_displayed(inputs));
    }
}

/// Once the overlay is closed nothing waits any more: every line that came for
/// the main screen has been shown.
pub proof fn law_closing_the_overlay_shows_all<B: Backend>(
    app: AppView<B>,
    inputs: Seq<Input<B>>,
    actions: Seq<Seq<Action<B>>>,
)
    requires
        app.wf(),
        is_run(app, inputs, actions),
        run_from(app, inputs).overlay is None,
    ensures
        all_shown(actions) == app.deferred + all_displayed(inputs),
{
    law_every_line_is_shown_once(app, inputs, actions);
    assert(all_shown(actions) + Seq::<Line<'static>>::empty() =~= all_shown(actions));
}

// ---------------------------------------------------------------------------
// What is handed on
// ---------------------------------------------------------------------------

/// What somebody else is owed for an input, whatever the state is.
pub open spec fn owed<B: Backend>(input: Input<B>) -> Seq<Action<B>> {
    match input {
        Input::App(AppEvent::CodexEvent(event)) => seq![Action::HandleCodexEvent(event)],
        Input::App(AppEvent::CodexOp(op)) => seq![Action::SubmitOp(op)],
        Input::App(AppEvent::ConversationHistory(history)) => seq![
            Action::BacktrackHistory(history),
        ],
        Input::App(AppEvent::FileSearchResult { query, matches }) => seq![
            Action::ApplyFileSearchResult { query, matches },
        ],
        Input::App(AppEvent::StartFileSearch(query)) if query@.len() > 0 => seq![
            Action::FileSearch(query),
        ],
        Input::App(AppEvent::CommitTick) => seq![Action::CommitTick],
        Input::App(AppEvent::UpdateReasoningEffort(effort)) => seq![
            Action::SetReasoningEffort(effort),
        ],
        Input::App(AppEvent::UpdateModel(model)) => seq![Action::SetModel(model)],
        Input::App(AppEvent::UpdateAskForApprovalPolicy(policy)) => seq![
            Action::SetApprovalPolicy(policy),
        ],
        Input::App(AppEvent::UpdateSandboxPolicy(policy)) => seq![Action::SetSandboxPolicy(policy)],
        _ => Seq::empty(),
    }
}

/// What of `actions` hands something on.
pub open spec fn handed_on<B: Backend>(actions: Seq<Action<B>>) -> Seq<Action<B>>
    decreases actions.len(),
{
    if actions.len() == 0 {
        Seq::empty()
    } else {
        handed_on(actions.drop_last()) + match actions.last() {
            Action::HandleCodexEvent(_) | Action::SubmitOp(_) | Action::BacktrackHistory(_)
            | Action::ApplyFileSearchResult { .. } | Action::FileSearch(_) | Action::CommitTick
            | Action::SetReasoningEffort(_) | Action::SetModel(_) | Action::SetApprovalPolicy(_)
            | Action::SetSandboxPolicy(_) => seq![actions.last()],
            _ => Seq::empty(),
        }
    }
}

/// What of a run hands something on.
pub open spec fn all_handed_on<B: Backend>(actions: Seq<Seq<Action<B>>>) -> Seq<Action<B>>
    decreases actions.len(),
{
    if actions.len() == 0 {
        Seq::empty()
    } else {
        all_handed_on(actions.drop_last()) + handed_on(actions.last())
    }
}

/// What is owed for the inputs of a run.
pub open spec fn all_owed<B: Backend>(inputs: Seq<Input<B>>) -> Seq<Action<B>>
    decreases inputs.len(),
{
    if inputs.len() == 0 {
        Seq::empty()
    } else {
        all_owed(inputs.drop_last()) + owed(inputs.last())
    }
}

/// Over a whole run, whatever covers the screen and whatever goes on meanwhile,
/// what is handed on is what came: every event of the agent, every request,
/// every history, every search with its result, every tick and every change of
/// settings, each once, unchanged, and in the order in which they came.
pub proof fn law_everything_is_handed_on_once<B: Backend>(
    app: AppView<B>,
    inputs: Seq<Input<B>>,
    actions: Seq<Seq<Action<B>>>,
)
    requires
        is_run(app, inputs, actions),
    ensures
        all_handed_on(actions) == all_owed(inputs),
    decreases inputs.len(),
{
    if inputs.len() > 0 {
        law_everything_is_handed_on_once(app, inputs.drop_last(), actions.drop_last());
        reveal_with_fuel(handed_on, 4);
        assert(handed_on(actions.last()) =~= owed(inputs.last()));
    }
}

/// After every run from the start, an open transcript shows every line of the
/// transcript, and no line waits while nothing covers the screen.
pub proof fn law_open_transcript_is_complete<B: Backend>(
    config: Arc<B::Config>,
    server: Arc<B::Server>,
    enhanced_keys_supported: bool,
    inputs: Seq<Input<B>>,
)
    ensures
        ({
            let app = run_from(
                AppView::<B>::initial(config, server, enhanced_keys_supported),
                inputs,
            );
            match app.overlay {
                Some(OverlayView::Transcript(lines)) => lines == app.transcript,
                Some(OverlayView::Static { .. }) => true,
                None => app.deferred.len() == 0,
            }
        }),
{
    law_invariant(config, server, enhanced_keys_supported, inputs);
}

// ---------------------------------------------------------------------------
// The animation
// ---------------------------------------------------------------------------

/// How often `actions` start the thread of the animation.
pub open spec fn spawns<B: Backend>(actions: Seq<Action<B>>) -> nat
    decreases actions.len(),
{
    if actions.len() == 0 {
        0
    } else {
        spawns(actions.drop_last()) + if actions.last() is SpawnCommitAnimation {
            1nat
        } else {
            0nat
        }
    }
}

/// How often a run starts the thread of the animation.
pub open spec fn all_spawns<B: Backend>(actions: Seq<Seq<Action<B>>>) -> nat
    decreases actions.len(),
{
    if actions.len() == 0 {
        0
    } else {
        all_spawns(actions.drop_last()) + spawns(actions.last())
    }
}

proof fn lemma_step_spawns<B: Backend>(app: AppView<B>, input: Input<B>, actions: Seq<Action<B>>)
    requires
        input_actions(app, input, actions),
    ensures
        spawns(actions) == (if after(app, input).commit_anim_running && !app.commit_anim_running {
            1nat
        } else {
            0nat
        }),
        app.commit_anim_running && !(input matches Input::App(AppEvent::StopCommitAnimation))
            ==> after(app, input).commit_anim_running,
{
    reveal_with_fuel(spawns, 4);
}

/// As long as nobody stops the animation, one thread at most is started for
/// it, however often it is started; none where it runs already.
pub proof fn law_one_animation_thread<B: Backend>(
    app: AppView<B>,
    inputs: Seq<Input<B>>,
    actions: Seq<Seq<Action<B>>>,
)
    requires
        is_run(app, inputs, actions),
        forall|i: int|
            0 <= i < inputs.len() ==> !(#[trigger] inputs[i] matches Input::App(
                AppEvent::StopCommitAnimation,
            )),
    ensures
        all_spawns(actions) == (if run_from(app, inputs).commit_anim_running
            && !app.commit_anim_running {
            1nat
        } else {
            0nat
        }),
        app.commit_anim_running ==> run_from(app, inputs).commit_anim_running,
    decreases inputs.len(),
{
    if inputs.len() > 0 {
        assert forall|i: int| 0 <= i < inputs.drop_last().len() implies !(
        #[trigger] inputs.drop_last()[i] matches Input::App(AppEvent::StopCommitAnimation)) by {
            assert(inputs.drop_last()[i] == inputs[i]);
        }
        law_one_animation_thread(app, inputs.drop_last(), actions.drop_last());
        lemma_step_spawns(
            run_from(app, inputs.drop_last()),
            inputs.last(),
            actions.last(),
        );
    }
}

/// Something that bears on the threads of the animation.
pub enum AnimationEvent<B: Backend> {
    /// The application reacts to an input.
    Step { input: Input<B>, actions: Seq<Action<B>> },
    /// A thread looks whether the animation runs: it goes to sleep where it
    /// does, and ends where it does not.
    Look,
    /// A thread wakes up, sends [`AppEvent::CommitTick`], and is about to look
    /// again.
    Tick,
}

/// The application and the threads of its animation.
pub struct Animation<B: Backend> {
    pub app: AppView<B>,
    /// How many threads are about to look whether the animation runs.
    pub looking: nat,
    /// How many threads sleep before they send a tick.
    pub sleeping: nat,
    /// How many ticks were sent.
    pub ticks: nat,
}

impl<B: Backend> Animation<B> {
    /// How many threads there are.
    pub open spec fn threads(self) -> nat {
        self.looking + self.sleeping
    }

    /// How many moves the threads have before them once the animation was
    /// stopped: one that sleeps sends its tick, and each looks once.
    pub open spec fn moves_left(self) -> nat {
        self.looking + 2 * self.sleeping
    }
}

/// What `event` makes of `animation`.
pub open spec fn animation_after<B: Backend>(
    animation: Animation<B>,
    event: AnimationEvent<B>,
) -> Animation<B> {
    match event {
        AnimationEvent::Step { input, actions } => Animation {
            app: after(animation.app, input),
            looking: animation.looking + spawns(actions),
            ..animation
        },
        AnimationEvent::Look => if animation.looking == 0 {
            animation
        } else if thread_action::<B>(
            animation.app.commit_anim_running,
            COMMIT_TICK_MILLIS,
        ) is Tick {
            Animation {
                looking: (animation.looking - 1) as nat,
                sleeping: animation.sleeping + 1,
                ..animation
            }
        } else {
            Animation { looking: (animation.looking - 1) as nat, ..animation }
        },
        AnimationEvent::Tick => if animation.sleeping == 0 {
            animation
        } else {
            Animation {
                looking: animation.looking + 1,
                sleeping: (animation.sleeping - 1) as nat,
                ticks: animation.ticks + 1,
                ..animation
            }
        },
    }
}

/// What `events` make of `animation`, one after the other.
pub open spec fn animation_run<B: Backend>(
    animation: Animation<B>,
    events: Seq<AnimationEvent<B>>,
) -> Animation<B>
    decreases events.len(),
{
    if events.len() == 0 {
        animation
    } else {
        animation_after(animation_run(animation, events.drop_last()), events.last())
    }
}

/// How many moves the threads make during `events`.
pub open spec fn thread_moves<B: Backend>(
    animation: Animation<B>,
    events: Seq<AnimationEvent<B>>,
) -> nat
    decreases events.len(),
{
    if events.len() == 0 {
        0
    } else {
        let before = animation_run(animation, events.drop_last());
        thread_moves(animation, events.drop_last()) + match events.last() {
            AnimationEvent::Look if before.looking > 0 => 1nat,
            AnimationEvent::Tick if before.sleeping > 0 => 1nat,
            _ => 0nat,
        }
    }
}

/// The actions are the application's.
pub open spec fn is_animation_run<B: Backend>(
    animation: Animation<B>,
    events: Seq<AnimationEvent<B>>,
) -> bool
    decreases events.len(),
{
    events.len() > 0 ==> {
        let before = animation_run(animation, events.drop_last());
        &&& is_animation_run(animation, events.drop_last())
        &&& events.last() matches AnimationEvent::Step { input, actions } ==> input_actions(
            before.app,
            input,
            actions,
        )
    }
}

/// `event` starts the animation.
pub open spec fn starts_animation<B: Backend>(event: AnimationEvent<B>) -> bool {
    event matches AnimationEvent::Step { input, actions } && input matches Input::App(
        AppEvent::StartCommitAnimation,
    )
}

/// The animation is not started again while a thread has yet to notice that it
/// was stopped.
pub open spec fn restarts_in_time<B: Backend>(
    animation: Animation<B>,
    events: Seq<AnimationEvent<B>>,
) -> bool
    decreases events.len(),
{
    events.len() > 0 ==> {
        let before = animation_run(animation, events.drop_last());
        &&& restarts_in_time(animation, events.drop_last())
        &&& starts_animation(events.last()) ==> before.app.commit_anim_running || before.threads()
            == 0
    }
}

/// There is never more than one thread of the animation at a time, and there is
/// one while the animation runs, as long as the animation is not started again
/// before the thread has noticed that it was stopped.
pub proof fn law_one_animation_thread_at_a_time<B: Backend>(
    animation: Animation<B>,
    events: Seq<AnimationEvent<B>>,
)
    requires
        animation.threads() <= 1,
        animation.app.commit_anim_running ==> animation.threads() == 1,
        is_animation_run(animation, events),
        restarts_in_time(animation, events),
    ensures
        animation_run(animation, events).threads() <= 1,
        animation_run(animation, events).app.commit_anim_running ==> animation_run(
            animation,
            events,
        ).threads() == 1,
    decreases events.len(),
{
    if events.len() > 0 {
        law_one_animation_thread_at_a_time(animation, events.drop_last());
        let before = animation_run(animation, events.drop_last());
        if let AnimationEvent::Step { input, actions } = events.last() {
            lemma_step_spawns(before.app, input, actions);
        }
    }
}

proof fn lemma_stopped_animation<B: Backend>(
    animation: Animation<B>,
    events: Seq<AnimationEvent<B>>,
)
    requires
        !animation.app.commit_anim_running,
        is_animation_run(animation, events),
        forall|i: int| 0 <= i < events.len() ==> !starts_animation(#[trigger] events[i]),
    ensures
        ({
            let then = animation_run(animation, events);
            &&& !then.app.commit_anim_running
            &&& then.ticks + then.sleeping == animation.ticks + animation.sleeping
            &&& thread_moves(animation, events) + then.moves_left() == animation.moves_left()
            &&& then.threads() <= animation.threads()
        }),
    decreases events.len(),
{
    if events.len() > 0 {
        let init = events.drop_last();
        assert forall|i: int| 0 <= i < init.len() implies !starts_animation(
            #[trigger] init[i],
        ) by {
            assert(init[i] == events[i]);
        }
        lemma_stopped_animation(animation, init);
        let before = animation_run(animation, init);
        assert(!starts_animation(events[events.len() - 1]));
        if let AnimationEvent::Step { input, actions } = events.last() {
            lemma_step_spawns(before.app, input, actions);
        }
    }
}

/// Once the animation was stopped, and as long as nobody starts it again, it
/// stays stopped. Each thread sends one more tick where it was asleep and none
/// where it was not, so one thread sends one more at most; after two moves of
/// its own at most it has ended.
pub proof fn law_stopped_animation_ends<B: Backend>(
    animation: Animation<B>,
    stop: Seq<Action<B>>,
    events: Seq<AnimationEvent<B>>,
)
    requires
        input_actions(animation.app, Input::App(AppEvent::<B>::StopCommitAnimation), stop),
        is_animation_run(
            animation_after(
                animation,
                AnimationEvent::Step {
                    input: Input::App(AppEvent::StopCommitAnimation),
                    actions: stop,
                },
            ),
            events,
        ),
        forall|i: int| 0 <= i < events.len() ==> !starts_animation(#[trigger] events[i]),
    ensures
        ({
            let stopped = animation_after(
                animation,
                AnimationEvent::Step {
                    input: Input::App(AppEvent::StopCommitAnimation),
                    actions: stop,
                },
            );
            let then = animation_run(stopped, events);
            &&& !stopped.app.commit_anim_running
            &&& !then.app.commit_anim_running
            &&& then.threads() <= animation.threads()
            &&& then.ticks <= animation.ticks + animation.sleeping
            &&& animation.threads() <= 1 ==> then.ticks <= animation.ticks + 1
            &&& thread_moves(stopped, events) + then.moves_left() == animation.moves_left()
            &&& thread_moves(stopped, events) == animation.moves_left() <==> then.threads() == 0
            &&& animation.threads() <= 1 ==> thread_moves(stopped, events) <= 2
        }),
{
    let input = Input::App(AppEvent::<B>::StopCommitAnimation);
    lemma_step_spawns(animation.app, input, stop);
    lemma_stopped_animation(
        animation_after(animation, AnimationEvent::Step { input, actions: stop }),
        events,
    );
}

// ---------------------------------------------------------------------------
// Sessions
// ---------------------------------------------------------------------------

/// What an event changes for the session that is on the screen, as the action
/// that the chat widget is asked for.
pub open spec fn session_update<B: Backend>(event: AppEvent<B>) -> Option<Action<B>> {
    match event {
        AppEvent::UpdateReasoningEffort(effort) => Some(Action::SetReasoningEffort(effort)),
        AppEvent::UpdateModel(model) => Some(Action::SetModel(model)),
        AppEvent::UpdateAskForApprovalPolicy(policy) => Some(Action::SetApprovalPolicy(policy)),
        AppEvent::UpdateSandboxPolicy(policy) => Some(Action::SetSandboxPolicy(policy)),
        _ => None,
    }
}

/// The configuration, the server and what the terminal said of its keys stay
/// what they were at the start, whatever happens during a run.
pub proof fn law_settings_are_kept<B: Backend>(app: AppView<B>, inputs: Seq<Input<B>>)
    ensures
        run_from(app, inputs).config == app.config,
        run_from(app, inputs).server == app.server,
        run_from(app, inputs).enhanced_keys_supported == app.enhanced_keys_supported,
    decreases inputs.len(),
{
    if inputs.len() > 0 {
        law_settings_are_kept(app, inputs.drop_last());
    }
}

proof fn lemma_run_at<B: Backend>(
    app: AppView<B>,
    inputs: Seq<Input<B>>,
    actions: Seq<Seq<Action<B>>>,
    i: int,
)
    requires
        is_run(app, inputs, actions),
        0 <= i < inputs.len(),
    ensures
        input_actions(run_from(app, inputs.take(i)), inputs[i], actions[i]),
    decreases inputs.len(),
{
    let init = inputs.drop_last();
    if i < init.len() {
        lemma_run_at(app, init, actions.drop_last(), i);
        assert(init.take(i) =~= inputs.take(i));
    } else {
        assert(init =~= inputs.take(i));
    }
}

/// A change of the model, of the reasoning effort or of a policy goes to the
/// chat widget that there is, by one action, and does not carry over: every new
/// session starts a chat widget from what the application was started with,
/// without prompt or images, whatever was changed before.
pub proof fn law_updates_end_with_the_session<B: Backend>(
    app: AppView<B>,
    inputs: Seq<Input<B>>,
    actions: Seq<Seq<Action<B>>>,
    i: int,
    event: AppEvent<B>,
)
    requires
        is_run(app, inputs, actions),
        0 <= i < inputs.len(),
        inputs[i] == Input::App(event),
    ensures
        session_update(event) matches Some(update) ==> {
            &&& actions[i] == seq![update]
            &&& after(run_from(app, inputs.take(i)), inputs[i]) == run_from(app, inputs.take(i))
        },
        event is NewSession ==> {
            &&& actions[i].len() == 3
            &&& actions[i][0] == Action::<B>::CollectTokenUsage
            &&& starts_blank_widget(app, actions[i][1])
            &&& actions[i][2] == Action::<B>::ScheduleFrame
            &&& after(run_from(app, inputs.take(i)), inputs[i]) == run_from(app, inputs.take(i))
        },
{
    lemma_run_at(app, inputs, actions, i);
    law_settings_are_kept(app, inputs.take(i));
}

// ---------------------------------------------------------------------------
// The usage of tokens
// ---------------------------------------------------------------------------

/// The chat widgets that were started, numbered from zero, and whose usage of
/// tokens counts.
pub struct Sessions {
    /// How many chat widgets were started.
    pub started: nat,
    /// Whose usage was taken note of, in order.
    pub collected: Seq<nat>,
    /// Whose usage was reported, once it was.
    pub reported: Option<Seq<nat>>,
}

/// What `action` makes of `sessions`.
pub open spec fn sessions_after<B: Backend>(sessions: Sessions, action: Action<B>) -> Sessions {
    match action {
        Action::StartChatWidget { .. } => Sessions { started: sessions.started + 1, ..sessions },
        Action::CollectTokenUsage => Sessions {
            collected: sessions.collected.push((sessions.started - 1) as nat),
            ..sessions
        },
        Action::ReportTokenUsage => Sessions {
            reported: Some(sessions.collected.push((sessions.started - 1) as nat)),
            ..sessions
        },
        _ => sessions,
    }
}

/// What `actions` make of `sessions`, one after the other.
pub open spec fn sessions_after_all<B: Backend>(
    sessions: Sessions,
    actions: Seq<Action<B>>,
) -> Sessions
    decreases actions.len(),
{
    if actions.len() == 0 {
        sessions
    } else {
        sessions_after(sessions_after_all(sessions, actions.drop_last()), actions.last())
    }
}

/// What the actions of a run make of `sessions`.
pub open spec fn sessions_run<B: Backend>(
    sessions: Sessions,
    actions: Seq<Seq<Action<B>>>,
) -> Sessions
    decreases actions.len(),
{
    if actions.len() == 0 {
        sessions
    } else {
        sessions_after_all(sessions_run(sessions, actions.drop_last()), actions.last())
    }
}

/// The first `n` chat widgets.
pub open spec fn first_widgets(n: nat) -> Seq<nat> {
    Seq::new(n, |i: int| i as nat)
}

/// No chat widget was started yet.
pub open spec fn no_sessions() -> Sessions {
    Sessions { started: 0, collected: Seq::empty(), reported: None }
}

/// How many new sessions were asked for.
pub open spec fn new_sessions<B: Backend>(inputs: Seq<Input<B>>) -> nat
    decreases inputs.len(),
{
    if inputs.len() == 0 {
        0
    } else {
        new_sessions(inputs.drop_last()) + if inputs.last() matches Input::App(
            AppEvent::NewSession,
        ) {
            1nat
        } else {
            0nat
        }
    }
}

proof fn lemma_step_counts<B: Backend>(
    sessions: Sessions,
    app: AppView<B>,
    input: Input<B>,
    actions: Seq<Action<B>>,
)
    requires
        input_actions(app, input, actions),
        sessions.started > 0,
        sessions.collected == first_widgets((sessions.started - 1) as nat),
    ensures
        ({
            let then = sessions_after_all(sessions, actions);
            &&& then.started == sessions.started + if input matches Input::App(
                AppEvent::NewSession,
            ) {
                1nat
            } else {
                0nat
            }
            &&& then.collected == first_widgets((then.started - 1) as nat)
            &&& then.reported == if input matches Input::App(AppEvent::ExitRequest) {
                Some(first_widgets(then.started))
            } else {
                sessions.reported
            }
        }),
{
    reveal_with_fuel(sessions_after_all, 4);
    let n = sessions.started;
    assert(first_widgets((n - 1) as nat).push((n - 1) as nat) =~= first_widgets(n));
}

/// The usage of every session counts, and each counts once: when the user
/// leaves, what is reported is the usage of all the chat widgets that were
/// started during the run, in the order in which they were started. Nothing is
/// reported before.
///
/// `first` is what the application does before its first input.
pub proof fn law_every_session_is_counted_once<B: Backend>(
    app: AppView<B>,
    first: Seq<Action<B>>,
    inputs: Seq<Input<B>>,
    actions: Seq<Seq<Action<B>>>,
)
    requires
        first.len() == 2,
        first[0] is StartChatWidget,
        first[1] is ScheduleFrame,
        is_run(app, inputs, actions),
        forall|i: int|
            0 <= i < inputs.len() - 1 ==> !(#[trigger] inputs[i] matches Input::App(
                AppEvent::ExitRequest,
            )),
    ensures
        ({
            let sessions = sessions_run(sessions_after_all(no_sessions(), first), actions);
            &&& sessions.started == 1 + new_sessions(inputs)
            &&& sessions.collected == first_widgets((sessions.started - 1) as nat)
            &&& sessions.reported == if inputs.len() > 0 && (inputs.last() matches Input::App(
                AppEvent::ExitRequest,
            )) {
                Some(first_widgets(sessions.started))
            } else {
                None
            }
        }),
    decreases inputs.len(),
{
    let start = sessions_after_all(no_sessions(), first);
    if inputs.len() > 0 {
        let init = inputs.drop_last();
        assert forall|i: int| 0 <= i < init.len() implies !(#[trigger] init[i] matches Input::App(
            AppEvent::ExitRequest,
        )) by {
            assert(init[i] == inputs[i]);
        }
        law_every_session_is_counted_once(app, first, init, actions.drop_last());
        lemma_step_counts(
            sessions_run(start, actions.drop_last()),
            run_from(app, init),
            inputs.last(),
            actions.last(),
        );
    } else {
        reveal_with_fuel(sessions_after_all, 3);
        assert(first_widgets(0) =~= Seq::<nat>::empty());
    }
}

// ---------------------------------------------------------------------------
// The backtracking
// ---------------------------------------------------------------------------

/// A key other than Esc that reaches the chat widget leaves the backtracking
/// disarmed, so that no armed Esc outlives the first key that the user types.
pub proof fn law_typing_disarms_backtrack<B: Backend>(
    app: AppView<B>,
    key: KeyEvent,
    raw: B::Key,
    status: WidgetStatus,
)
    requires
        key.code != KeyCode::Esc,
        key_actions::<B>(app, key, raw, status).contains(Action::ForwardKey(raw)),
    ensures
        !after_key(app, key, status).backtrack.primed,
{
}

/// A key that is let go changes nothing and is handed to nobody.
pub proof fn law_released_keys_are_ignored<B: Backend>(
    app: AppView<B>,
    key: KeyEvent,
    raw: B::Key,
    status: WidgetStatus,
)
    requires
        !key.is_down(),
    ensures
        after_key(app, key, status) == app,
        key_actions::<B>(app, key, raw, status) == Seq::<Action<B>>::empty(),
{
}

/// A key is either taken by the application or handed on: it never confirms a
/// selection and reaches the chat widget as well.
pub proof fn law_confirming_key_is_not_forwarded<B: Backend>(
    app: AppView<B>,
    key: KeyEvent,
    raw: B::Key,
    status: WidgetStatus,
)
    requires
        confirms_backtrack(app, key, status),
    ensures
        !key_actions::<B>(app, key, raw, status).contains(Action::ForwardKey(raw)),
        after_key(app, key, status) == app,
{
}

} // verus!
