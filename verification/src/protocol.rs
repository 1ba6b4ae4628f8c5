//! The values that travel between the user interface, the conversation manager
//! and the agent behind it.

use vstd::prelude::*;

verus! {

/// The types of the surrounding program whose values the library hands on
/// without looking inside them.
pub trait Backend: Sized {
    /// A live connection to the agent.
    type Codex;

    /// Credentials of a user.
    type CodexAuth;

    /// What gives access to the credentials of a user.
    type AuthManager;

    /// Configuration of a conversation.
    type Config;

    /// What creates conversations and keeps them, as it is shared.
    type Server;

    /// Why the agent could not do something.
    type Error;

    /// What the agent reports once a session is configured.
    type SessionConfigured;

    /// The content of any other event of the agent.
    type Msg;

    /// A request to the agent.
    type Op;

    /// The history of a conversation, as the agent sends it.
    type ConversationHistory;

    /// One hit of a file search.
    type FileMatch;

    /// How much effort the model spends on reasoning.
    type ReasoningEffort;

    /// When the user is asked to approve a command.
    type AskForApproval;

    /// What a command may do.
    type SandboxPolicy;

    /// A file system path.
    type Path;

    /// A key event as the terminal delivered it.
    type Key;
}

/// An event of the agent: the id of the submission that it answers, and its
/// content.
pub struct Event<B: Backend> {
    pub id: String,
    pub msg: EventMsg<B>,
}

/// The content of an [`Event`].
pub enum EventMsg<B: Backend> {
    SessionConfigured(B::SessionConfigured),
    Other(B::Msg),
}

/// A piece of the content of a message.
#[derive(Clone, Debug, PartialEq, Eq)]
pub enum ContentItem {
    InputText { text: String },
    OutputText { text: String },
    /// Content of any other kind, in its serialised form.
    Other { json: String },
}

/// A piece of the summary of a reasoning item.
#[derive(Clone, Debug, PartialEq, Eq)]
pub enum ReasoningItemReasoningSummary {
    SummaryText { text: String },
}

/// A piece of the content of a reasoning item.
#[derive(Clone, Debug, PartialEq, Eq)]
pub enum ReasoningItemContent {
    ReasoningText { text: String },
}

/// One item of a conversation's history.
#[allow(inconsistent_fields)]
#[derive(Clone, Debug, PartialEq, Eq)]
pub enum ResponseItem {
    Message { id: Option<String>, role: String, content: Vec<ContentItem> },
    Reasoning {
        id: String,
        summary: Vec<ReasoningItemReasoningSummary>,
        content: Option<Vec<ReasoningItemContent>>,
        encrypted_content: Option<String>,
    },
    FunctionCall { id: Option<String>, name: String, arguments: String, call_id: String },
    /// An item of any other kind, in its serialised form.
    Other { json: String },
}

} // verus!
