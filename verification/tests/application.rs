use std::sync::Arc;

use codex::app::{
    animation_thread, App, BacktrackState, Input, Overlay, Step, ThreadAction, WidgetStatus,
};
use codex::app_event::{Action, AppEvent, TuiEvent};
use codex::key::{KeyCode, KeyEvent, KeyEventKind};
use codex::protocol::{Backend, Event, EventMsg};
use codex::styled::{diff_pager_lines, PagerLine};
use crossterm::event::KeyModifiers;
use ratatui::style::{Modifier, Style};
use ratatui::text::Line;

struct Words;

impl Backend for Words {
    type Codex = String;
    type CodexAuth = String;
    type AuthManager = String;
    type Config = String;
    type Server = String;
    type Error = String;
    type SessionConfigured = String;
    type Msg = String;
    type Op = String;
    type ConversationHistory = String;
    type FileMatch = String;
    type ReasoningEffort = String;
    type AskForApproval = String;
    type SandboxPolicy = String;
    type Path = String;
    type Key = String;
}

fn texts(lines: &[Line<'static>]) -> String {
    lines.iter().map(|line| line.to_string()).collect::<Vec<_>>().join("|")
}

fn name(action: &Action<Words>) -> String {
    match action {
        Action::StartChatWidget {
            config,
            server,
            initial_prompt,
            initial_images,
            enhanced_keys_supported,
        } => format!(
            "start {config} {server} {initial_prompt:?} {initial_images:?} {enhanced_keys_supported}"
        ),
        Action::CollectTokenUsage => "collect".to_string(),
        Action::ReportTokenUsage => "report".to_string(),
        Action::ScheduleFrame => "frame".to_string(),
        Action::InsertHistoryLines(lines) => format!("lines {}", texts(lines)),
        Action::SpawnCommitAnimation { tick_millis } => format!("spawn {tick_millis}"),
        Action::EndCommitAnimation => "end".to_string(),
        Action::CommitTick => "tick".to_string(),
        Action::HandleCodexEvent(event) => format!("event {}", event.id),
        Action::BacktrackHistory(history) => format!("history {history}"),
        Action::SubmitOp(op) => format!("op {op}"),
        Action::DiffComplete => "diff".to_string(),
        Action::EnterAltScreen => "alt".to_string(),
        Action::FileSearch(query) => format!("search {query}"),
        Action::ApplyFileSearchResult { query, matches } => format!("found {query} {matches:?}"),
        Action::SetReasoningEffort(effort) => format!("effort {effort}"),
        Action::SetModel(model) => format!("model {model}"),
        Action::SetApprovalPolicy(policy) => format!("approval {policy}"),
        Action::SetSandboxPolicy(policy) => format!("sandbox {policy}"),
        Action::OverlayEvent(TuiEvent::Key { raw, .. }) => format!("overlay {raw}"),
        Action::OverlayEvent(_) => "overlay".to_string(),
        Action::BacktrackEsc => "esc".to_string(),
        Action::ConfirmBacktrack => "confirm".to_string(),
        Action::ResetBacktrack => "reset".to_string(),
        Action::ForwardKey(raw) => format!("key {raw}"),
        Action::HandlePaste(text) => format!("paste {text}"),
        Action::PasteBurstTick => "burst".to_string(),
        Action::Render => "render".to_string(),
        Action::AttachImage { path, width, height, format_label } => {
            format!("image {path} {width}x{height} {format_label}")
        }
        Action::ClearTerminal => "clear".to_string(),
    }
}

fn names(step: &Step<Words>) -> Vec<String> {
    step.actions.iter().map(name).collect()
}

type Start = (App<Words>, Vec<Action<Words>>);

fn run(keyboard: Option<bool>, prompt: Option<String>, images: Vec<String>) -> Start {
    App::run(Arc::new("config".to_string()), Arc::new("server".to_string()), keyboard, prompt, images)
}

fn started() -> App<Words> {
    run(Some(true), None, Vec::new()).0
}

fn lines(text: &str) -> Vec<Line<'static>> {
    text.split('|').map(|line| Line::from(line.to_string())).collect()
}

fn send(app: &mut App<Words>, event: AppEvent<Words>) -> Vec<String> {
    let step = app.step(Input::App(event));
    assert!(step.running);
    names(&step)
}

const AT_REST: WidgetStatus =
    WidgetStatus { normal_backtrack_mode: true, composer_is_empty: true };

fn press(app: &mut App<Words>, code: KeyCode, status: WidgetStatus) -> Vec<String> {
    key(app, code, KeyModifiers::NONE, KeyEventKind::Press, status)
}

fn key(
    app: &mut App<Words>,
    code: KeyCode,
    modifiers: KeyModifiers,
    kind: KeyEventKind,
    status: WidgetStatus,
) -> Vec<String> {
    let key = KeyEvent { code, modifiers: modifiers.bits(), kind };
    let event = TuiEvent::Key { key, raw: "raw".to_string() };
    let step = app.step(Input::Tui { event, status });
    assert!(step.running);
    names(&step)
}

fn transcript(app: &App<Words>) -> String {
    match app.overlay() {
        Some(Overlay::Transcript(lines)) => texts(lines),
        _ => panic!("no transcript"),
    }
}

fn open_transcript(app: &mut App<Words>) {
    let shown =
        key(app, KeyCode::Char('t'), KeyModifiers::CONTROL, KeyEventKind::Press, AT_REST);
    assert_eq!(shown, vec!["alt", "frame"]);
}

#[test]
fn run_starts_a_chat_widget() {
    let prompt = Some("hi".to_string());
    let (app, actions) = run(Some(true), prompt, vec!["a.png".to_string()]);
    let shown: Vec<String> = actions.iter().map(name).collect();
    assert_eq!(shown, vec!["start config server Some(\"hi\") [\"a.png\"] true", "frame"]);
    assert!(app.overlay().is_none());
    for answer in [None, Some(false)] {
        let (mut app, actions) = run(answer, None, Vec::new());
        assert_eq!(name(&actions[0]), "start config server None [] false");
        assert_eq!(send(&mut app, AppEvent::NewSession), vec!["collect", "start config server None [] false", "frame"]);
    }
}

#[test]
fn events_reach_the_widget() {
    let mut app = started();
    let event = Event { id: "7".to_string(), msg: EventMsg::Other("x".to_string()) };
    assert_eq!(send(&mut app, AppEvent::CodexEvent(event)), vec!["event 7"]);
    assert_eq!(send(&mut app, AppEvent::NewSession), vec!["collect", "start config server None [] true", "frame"]);
    assert_eq!(send(&mut app, AppEvent::CodexOp("op".to_string())), vec!["op op"]);
    assert_eq!(send(&mut app, AppEvent::CommitTick), vec!["tick"]);
    assert_eq!(send(&mut app, AppEvent::ConversationHistory("h".to_string())), vec!["history h"]);
    assert_eq!(send(&mut app, AppEvent::UpdateModel("m".to_string())), vec!["model m"]);
    assert_eq!(send(&mut app, AppEvent::UpdateReasoningEffort("low".to_string())), vec!["effort low"]);
    assert_eq!(
        send(&mut app, AppEvent::UpdateAskForApprovalPolicy("never".to_string())),
        vec!["approval never"]
    );
    assert_eq!(send(&mut app, AppEvent::UpdateSandboxPolicy("ro".to_string())), vec!["sandbox ro"]);
    let result = AppEvent::FileSearchResult {
        query: "q".to_string(),
        matches: vec!["f".to_string()],
    };
    assert_eq!(send(&mut app, result), vec!["found q [\"f\"]"]);
}

#[test]
fn empty_file_search_is_not_started() {
    let mut app = started();
    assert!(send(&mut app, AppEvent::StartFileSearch(String::new())).is_empty());
    assert_eq!(send(&mut app, AppEvent::StartFileSearch("lib".to_string())), vec!["search lib"]);
}

#[test]
fn exit_clears_the_terminal() {
    let mut app = started();
    let step = app.step(Input::App(AppEvent::ExitRequest));
    assert!(!step.running);
    assert_eq!(names(&step), vec!["clear", "report"]);
    let bare = app.handle_event(AppEvent::ExitRequest);
    assert!(!bare.running && bare.actions.is_empty());
}

#[test]
fn animation_thread_is_started_once() {
    let mut app = started();
    assert_eq!(send(&mut app, AppEvent::StartCommitAnimation), vec!["spawn 50"]);
    assert!(send(&mut app, AppEvent::StartCommitAnimation).is_empty());
    assert!(send(&mut app, AppEvent::StartCommitAnimation).is_empty());
    assert_eq!(send(&mut app, AppEvent::StopCommitAnimation), vec!["end"]);
    assert_eq!(send(&mut app, AppEvent::StopCommitAnimation), vec!["end"]);
    assert_eq!(send(&mut app, AppEvent::StartCommitAnimation), vec!["spawn 50"]);
}

#[test]
fn lines_are_shown_at_once_without_overlay() {
    let mut app = started();
    assert_eq!(send(&mut app, AppEvent::InsertHistoryLines(lines("a|b"))), vec!["lines a|b"]);
    assert_eq!(send(&mut app, AppEvent::InsertHistoryLines(Vec::new())), vec!["lines "]);
    let cell = AppEvent::InsertHistoryCell { transcript: lines("t"), display: lines("d") };
    assert_eq!(send(&mut app, cell), vec!["lines d"]);
    let hidden = AppEvent::InsertHistoryCell { transcript: lines("u"), display: Vec::new() };
    assert!(send(&mut app, hidden).is_empty());
    open_transcript(&mut app);
    assert_eq!(transcript(&app), "a|b|t|u");
}

#[test]
fn lines_wait_for_the_overlay_to_close() {
    let mut app = started();
    send(&mut app, AppEvent::InsertHistoryLines(lines("a")));
    open_transcript(&mut app);
    assert_eq!(send(&mut app, AppEvent::InsertHistoryLines(lines("b|c"))), vec!["frame"]);
    let cell = AppEvent::InsertHistoryCell { transcript: lines("t"), display: lines("d") };
    assert_eq!(send(&mut app, cell), vec!["frame"]);
    assert_eq!(transcript(&app), "a|b|c|t");
    send(&mut app, AppEvent::DiffResult("x".to_string()));
    assert!(send(&mut app, AppEvent::InsertHistoryLines(lines("e"))).is_empty());
    let closed = app.step(Input::OverlayClosed);
    assert_eq!(names(&closed), vec!["lines b|c|d|e"]);
    assert!(app.overlay().is_none());
    let again = app.step(Input::OverlayClosed);
    assert!(names(&again).is_empty());
    assert_eq!(send(&mut app, AppEvent::InsertHistoryLines(lines("f"))), vec!["lines f"]);
}

#[test]
fn diff_opens_a_pager() {
    let mut app = started();
    let shown = send(&mut app, AppEvent::DiffResult("+a\r\n-b\n".to_string()));
    assert_eq!(shown, vec!["diff", "alt", "frame"]);
    match app.overlay() {
        Some(Overlay::Static { title, lines }) => {
            assert_eq!(title, "D I F F");
            assert_eq!(lines.len(), 2);
            assert!(matches!(&lines[0], PagerLine::Ansi(text) if text == "+a"));
            assert!(matches!(&lines[1], PagerLine::Ansi(text) if text == "-b"));
        }
        _ => panic!("no pager"),
    }
}

#[test]
fn empty_diff_is_noted_in_italics() {
    for text in ["", " \n\t\r\n", "\u{3000}"] {
        let lines = diff_pager_lines(text);
        assert_eq!(lines.len(), 1);
        match &lines[0] {
            PagerLine::Styled(line) => {
                assert_eq!(line.spans.len(), 1);
                assert_eq!(line.spans[0].content, "No changes detected.");
                assert_eq!(line.spans[0].style, Style::new().add_modifier(Modifier::ITALIC));
                assert_eq!(line.spans[0].style.add_modifier.bits(), codex::styled::ITALIC);
            }
            PagerLine::Ansi(_) => panic!("not styled"),
        }
    }
}

#[test]
fn copies_of_styled_lines_are_equal() {
    let original = vec![Line::styled("x", Style::new().add_modifier(Modifier::BOLD)).centered()];
    assert_eq!(codex::styled::clone_lines(&original), original);
}

#[test]
fn control_t_alone_opens_the_transcript() {
    assert_eq!(KeyModifiers::CONTROL.bits(), codex::key::CONTROL);
    let t = KeyCode::Char('t');
    let mut app = started();
    let both = KeyModifiers::CONTROL.union(KeyModifiers::SHIFT);
    for (code, modifiers, kind) in [
        (t, KeyModifiers::NONE, KeyEventKind::Press),
        (t, both, KeyEventKind::Press),
        (t, KeyModifiers::CONTROL, KeyEventKind::Repeat),
        (KeyCode::Char('T'), KeyModifiers::CONTROL, KeyEventKind::Press),
    ] {
        assert_eq!(key(&mut app, code, modifiers, kind, AT_REST), vec!["key raw"]);
        assert!(app.overlay().is_none());
    }
    open_transcript(&mut app);
    assert_eq!(transcript(&app), "");
}

#[test]
fn released_keys_are_ignored() {
    let mut app = started();
    app.step(Input::Backtrack(BacktrackState { primed: true, count: 1 }));
    for code in [KeyCode::Esc, KeyCode::Enter, KeyCode::Char('t'), KeyCode::Other] {
        for modifiers in [KeyModifiers::NONE, KeyModifiers::CONTROL] {
            assert!(key(&mut app, code, modifiers, KeyEventKind::Release, AT_REST).is_empty());
        }
    }
    assert_eq!(press(&mut app, KeyCode::Enter, AT_REST), vec!["confirm"]);
}

#[test]
fn esc_backtracks_at_rest_only() {
    let mut app = started();
    assert_eq!(press(&mut app, KeyCode::Esc, AT_REST), vec!["esc"]);
    let held = key(&mut app, KeyCode::Esc, KeyModifiers::ALT, KeyEventKind::Repeat, AT_REST);
    assert_eq!(held, vec!["esc"]);
    let busy = WidgetStatus { normal_backtrack_mode: false, composer_is_empty: true };
    assert_eq!(press(&mut app, KeyCode::Esc, busy), vec!["key raw"]);
    let typing = WidgetStatus { normal_backtrack_mode: true, composer_is_empty: false };
    assert_eq!(press(&mut app, KeyCode::Esc, typing), vec!["key raw"]);
}

#[test]
fn enter_confirms_an_armed_backtrack() {
    let armed = BacktrackState { primed: true, count: 2 };
    let mut app = started();
    assert_eq!(press(&mut app, KeyCode::Enter, AT_REST), vec!["key raw"]);
    app.step(Input::Backtrack(armed));
    assert_eq!(press(&mut app, KeyCode::Enter, AT_REST), vec!["confirm"]);
    app.step(Input::Backtrack(armed));
    let held = key(&mut app, KeyCode::Enter, KeyModifiers::NONE, KeyEventKind::Repeat, AT_REST);
    assert_eq!(held, vec!["reset", "key raw"]);
    app.step(Input::Backtrack(BacktrackState { primed: true, count: 0 }));
    assert_eq!(press(&mut app, KeyCode::Enter, AT_REST), vec!["reset", "key raw"]);
    app.step(Input::Backtrack(armed));
    let typing = WidgetStatus { normal_backtrack_mode: true, composer_is_empty: false };
    assert_eq!(press(&mut app, KeyCode::Enter, typing), vec!["reset", "key raw"]);
}

#[test]
fn typing_disarms_the_backtrack() {
    let mut app = started();
    app.step(Input::Backtrack(BacktrackState { primed: true, count: 3 }));
    assert_eq!(press(&mut app, KeyCode::Char('x'), AT_REST), vec!["reset", "key raw"]);
    assert_eq!(press(&mut app, KeyCode::Char('x'), AT_REST), vec!["key raw"]);
    assert_eq!(press(&mut app, KeyCode::Enter, AT_REST), vec!["key raw"]);
}

#[test]
fn overlay_takes_the_terminal_events() {
    let mut app = started();
    open_transcript(&mut app);
    assert_eq!(press(&mut app, KeyCode::Esc, AT_REST), vec!["overlay raw"]);
    let draw = app.step(Input::Tui { event: TuiEvent::Draw, status: AT_REST });
    assert_eq!(names(&draw), vec!["overlay"]);
    assert!(app.overlay().is_some());
}

#[test]
fn paste_is_normalised() {
    let mut app = started();
    let event = TuiEvent::Paste("a\rb".to_string());
    let step = app.step(Input::Tui { event, status: AT_REST });
    assert_eq!(names(&step), vec!["paste a\nb"]);
}

#[test]
fn draw_waits_for_a_paste() {
    let mut app = started();
    let draw = app.step(Input::Tui { event: TuiEvent::Draw, status: AT_REST });
    assert_eq!(names(&draw), vec!["burst"]);
    let busy = app.step(Input::PasteBurst { handled: true });
    assert!(names(&busy).is_empty() && busy.running);
    let done = app.step(Input::PasteBurst { handled: false });
    assert_eq!(names(&done), vec!["render"]);
}

#[test]
fn image_is_attached() {
    let mut app = started();
    let event = TuiEvent::AttachImage {
        path: "/tmp/a.png".to_string(),
        width: 640,
        height: 480,
        format_label: "PNG".to_string(),
    };
    let step = app.step(Input::Tui { event, status: AT_REST });
    assert_eq!(names(&step), vec!["image /tmp/a.png 640x480 PNG"]);
}

#[test]
fn every_session_is_told_of_the_keyboard() {
    for (answer, supported) in [
        (Some(true), "start config server None [] true"),
        (Some(false), "start config server None [] false"),
        (None, "start config server None [] false"),
    ] {
        let mut app = run(answer, None, Vec::new()).0;
        send(&mut app, AppEvent::DiffResult("+a".to_string()));
        assert_eq!(send(&mut app, AppEvent::NewSession), vec!["collect", supported, "frame"]);
        assert_eq!(send(&mut app, AppEvent::NewSession), vec!["collect", supported, "frame"]);
    }
}

#[test]
fn updates_end_with_the_session() {
    let (mut app, first) = run(Some(true), Some("hi".to_string()), vec!["a.png".to_string()]);
    assert_eq!(name(&first[0]), "start config server Some(\"hi\") [\"a.png\"] true");
    for _ in 0..2 {
        assert_eq!(send(&mut app, AppEvent::UpdateModel("m".to_string())), vec!["model m"]);
        let policy = AppEvent::UpdateSandboxPolicy("rw".to_string());
        assert_eq!(send(&mut app, policy), vec!["sandbox rw"]);
        let session = send(&mut app, AppEvent::NewSession);
        assert_eq!(session, vec!["collect", "start config server None [] true", "frame"]);
    }
}

#[test]
fn failure_ends_the_loop_without_clearing() {
    let mut app = started();
    let step = app.step(Input::Failed);
    assert!(!step.running);
    assert!(step.actions.is_empty());
}

#[test]
fn backtracking_opens_the_transcript() {
    let mut app = started();
    send(&mut app, AppEvent::InsertHistoryLines(lines("a|b|c")));
    let opened = app.step(Input::OpenTranscript);
    assert_eq!(names(&opened), vec!["alt", "frame"]);
    assert_eq!(transcript(&app), "a|b|c");
}

#[test]
fn backtracking_cuts_the_transcript() {
    let mut app = started();
    send(&mut app, AppEvent::InsertHistoryLines(lines("a|b|c")));
    assert!(app.step(Input::CutTranscript { keep: 9 }).actions.is_empty());
    open_transcript(&mut app);
    assert_eq!(transcript(&app), "a|b|c");
    assert!(app.step(Input::CutTranscript { keep: 1 }).actions.is_empty());
    assert_eq!(transcript(&app), "a");
    send(&mut app, AppEvent::InsertHistoryLines(lines("d")));
    assert_eq!(transcript(&app), "a|d");
    assert_eq!(names(&app.step(Input::OverlayClosed)), vec!["lines d"]);
    app.step(Input::CutTranscript { keep: 0 });
    open_transcript(&mut app);
    assert_eq!(transcript(&app), "");
}

#[test]
fn stopped_animation_ticks_once_more_at_most() {
    for stopped_after in 0..4 {
        let mut app = started();
        let step = app.step(Input::App(AppEvent::StartCommitAnimation));
        let tick_millis = match step.actions[0] {
            Action::SpawnCommitAnimation { tick_millis } => tick_millis,
            _ => panic!("no thread"),
        };
        let mut running = true;
        let mut ticks = 0;
        while let ThreadAction::Tick { millis, event } =
            animation_thread::<Words>(running, tick_millis)
        {
            assert_eq!(millis, 50);
            if ticks == stopped_after {
                assert_eq!(send(&mut app, AppEvent::StopCommitAnimation), vec!["end"]);
                running = false;
            }
            assert_eq!(send(&mut app, event), vec!["tick"]);
            ticks += 1;
        }
        assert_eq!(ticks, stopped_after + 1);
    }
    assert!(matches!(animation_thread::<Words>(false, 50), ThreadAction::End));
}

#[test]
fn usage_of_every_session_is_counted_once() {
    let (mut app, first) = run(None, None, Vec::new());
    let mut shown: Vec<String> = first.iter().map(name).collect();
    shown.extend(send(&mut app, AppEvent::NewSession));
    shown.extend(send(&mut app, AppEvent::CommitTick));
    shown.extend(send(&mut app, AppEvent::NewSession));
    shown.extend(names(&app.step(Input::App(AppEvent::ExitRequest))));
    let mut started = 0;
    let mut counted = Vec::new();
    for action in shown {
        if action.starts_with("start") {
            started += 1;
        }
        if action == "collect" || action == "report" {
            counted.push(started - 1);
        }
    }
    assert_eq!(counted, vec![0, 1, 2]);
}
