//! The events that the application reacts to, and what it does in return.

use std::sync::Arc;

use ratatui::text::Line;
use vstd::prelude::*;

use crate::key::KeyEvent;
use crate::protocol::{Backend, Event};

verus! {

/// The time between two steps of the animation of streamed text.
pub const COMMIT_TICK_MILLIS: u64 = 50;

/// An event from inside the application.
pub enum AppEvent<B: Backend> {
    /// An event of the agent, to be shown.
    CodexEvent(Event<B>),
    /// Start a new session.
    NewSession,
    /// Leave the application.
    ExitRequest,
    /// Hand a request to the agent.
    CodexOp(B::Op),
    /// Search for files; the text is what follows the `@`.
    StartFileSearch(String),
    /// What a file search found, with the query that it answers.
    FileSearchResult { query: String, matches: Vec<B::FileMatch> },
    /// The text of a diff, to be shown.
    DiffResult(String),
    /// Lines for the history.
    InsertHistoryLines(Vec<Line<'static>>),
    /// A cell for the history: its lines in the transcript, and its lines on
    /// the main screen.
    InsertHistoryCell { transcript: Vec<Line<'static>>, display: Vec<Line<'static>> },
    /// Start the animation of streamed text.
    StartCommitAnimation,
    /// Stop the animation of streamed text.
    StopCommitAnimation,
    /// One step of the animation of streamed text.
    CommitTick,
    UpdateReasoningEffort(B::ReasoningEffort),
    UpdateModel(String),
    UpdateAskForApprovalPolicy(B::AskForApproval),
    UpdateSandboxPolicy(B::SandboxPolicy),
    /// The history of a conversation, sent by the agent.
    ConversationHistory(B::ConversationHistory),
}

/// An event from the terminal.
pub enum TuiEvent<B: Backend> {
    /// A key: what the application reads of it, and the event as it came.
    Key { key: KeyEvent, raw: B::Key },
    Paste(String),
    Draw,
    AttachImage { path: B::Path, width: u32, height: u32, format_label: String },
}

/// What the application asks of the chat widget, the terminal and the other
/// parts of the program.
pub enum Action<B: Backend> {
    /// Put a new chat widget in the place of the one that there is, if there is
    /// one. It talks to a new conversation, and sends the prompt and the images
    /// at once.
    StartChatWidget {
        config: Arc<B::Config>,
        server: Arc<B::Server>,
        initial_prompt: Option<String>,
        initial_images: Vec<B::Path>,
        enhanced_keys_supported: bool,
    },
    /// Take note of how many tokens the chat widget that there is has used.
    CollectTokenUsage,
    /// Say how many tokens were used in all: those that were taken note of, and
    /// those of the chat widget that there is. Nothing is left to be done then.
    ReportTokenUsage,
    /// Ask the terminal for a frame.
    ScheduleFrame,
    /// Show lines above the chat widget.
    InsertHistoryLines(Vec<Line<'static>>),
    /// Run a thread that looks whether the animation runs, does what
    /// [`crate::app::animation_thread`] says, and looks again until it is to
    /// end.
    SpawnCommitAnimation { tick_millis: u64 },
    /// Let the thread that sends ticks end.
    EndCommitAnimation,
    /// Show the next piece of streamed text.
    CommitTick,
    /// Let the chat widget show an event of the agent.
    HandleCodexEvent(Event<B>),
    /// Let the backtracking read the history of a conversation.
    BacktrackHistory(B::ConversationHistory),
    /// Hand a request to the agent.
    SubmitOp(B::Op),
    /// Tell the chat widget that the diff is there.
    DiffComplete,
    /// Switch the terminal to its alternate screen.
    EnterAltScreen,
    /// Search for files.
    FileSearch(String),
    /// Let the chat widget show what a file search found.
    ApplyFileSearchResult { query: String, matches: Vec<B::FileMatch> },
    SetReasoningEffort(B::ReasoningEffort),
    SetModel(String),
    SetApprovalPolicy(B::AskForApproval),
    SetSandboxPolicy(B::SandboxPolicy),
    /// Let the overlay react to an event.
    OverlayEvent(TuiEvent<B>),
    /// Start the backtracking, or take it a step further.
    BacktrackEsc,
    /// Fork the conversation at the selected message.
    ConfirmBacktrack,
    /// Forget what the backtracking had prepared.
    ResetBacktrack,
    /// Let the chat widget react to a key.
    ForwardKey(B::Key),
    /// Let the chat widget take pasted text.
    HandlePaste(String),
    /// Let the chat widget look at the paste that is coming in, before a draw.
    PasteBurstTick,
    /// Draw the chat widget.
    Render,
    /// Let the chat widget attach an image.
    AttachImage { path: B::Path, width: u32, height: u32, format_label: String },
    /// Clear the terminal.
    ClearTerminal,
}

} // verus!
