//! Conversations: how they are created, forked, kept and removed.

use std::collections::HashMap;
use std::sync::Arc;
use vstd::prelude::*;

use crate::chars;
use crate::history;
use crate::history::{are_exchanges, history_of, without_user, Exchange};
use crate::protocol::{Backend, Event, EventMsg, ResponseItem};

verus! {

/// Gives access to the user's credentials.
pub enum AuthManager<B: Backend> {
    /// The surrounding program's own.
    Shared(B::AuthManager),
    /// These credentials and no others. Meant for tests.
    Testing(B::CodexAuth),
}

impl<B: Backend> AuthManager<B> {
    /// Access by way of `manager`.
    pub fn new(manager: B::AuthManager) -> (r: Arc<AuthManager<B>>)
        ensures
            *r == AuthManager::<B>::Shared(manager),
    {
        Arc::new(AuthManager::Shared(manager))
    }

    /// Access to `auth` and nothing else. Meant for tests.
    pub fn from_auth_for_testing(auth: B::CodexAuth) -> (r: Arc<AuthManager<B>>)
        ensures
            *r == AuthManager::<B>::Testing(auth),
    {
        Arc::new(AuthManager::Testing(auth))
    }
}

/// A conversation with the agent. It owns the connection.
pub struct CodexConversation<B: Backend> {
    codex: B::Codex,
}

impl<B: Backend> View for CodexConversation<B> {
    type V = B::Codex;

    closed spec fn view(&self) -> B::Codex {
        self.codex
    }
}

impl<B: Backend> CodexConversation<B> {
    /// A conversation over the connection `codex`.
    pub fn new(codex: B::Codex) -> (r: CodexConversation<B>)
        ensures
            r@ == codex,
    {
        CodexConversation { codex }
    }

    /// The connection.
    pub fn codex(&self) -> (r: &B::Codex)
        ensures
            *r == self@,
    {
        &self.codex
    }
}

/// Why a conversation could not be had. `E` is the type of the agent's own
/// errors.
#[derive(Clone, Debug, PartialEq, Eq)]
pub enum CodexErr<E> {
    /// The first event of a conversation was not that its session is
    /// configured.
    SessionConfiguredNotFirstEvent,
    /// There is no conversation with this id.
    ConversationNotFound(u128),
    /// The agent could not be started, or its first event could not be read.
    Agent(E),
}

/// What an agent is started with.
pub struct SpawnRequest<B: Backend> {
    pub config: B::Config,
    pub auth_manager: Arc<AuthManager<B>>,
    /// The history that the conversation starts from, where it starts from one.
    pub initial_history: Option<Vec<ResponseItem>>,
}

/// An agent that has been started.
pub struct CodexSpawnOk<B: Backend> {
    pub codex: B::Codex,
    pub session_id: u128,
}

/// A conversation that has just been created, with its first event.
pub struct NewConversation<B: Backend> {
    pub conversation_id: u128,
    pub conversation: Arc<CodexConversation<B>>,
    pub session_configured: B::SessionConfigured,
}

/// Creates conversations and keeps them, each under its id.
pub struct ConversationManager<B: Backend> {
    conversations: HashMap<u128, Arc<CodexConversation<B>>>,
    auth_manager: Arc<AuthManager<B>>,
}

impl<B: Backend> View for ConversationManager<B> {
    type V = Map<u128, Arc<CodexConversation<B>>>;

    /// The conversations that are kept.
    closed spec fn view(&self) -> Map<u128, Arc<CodexConversation<B>>> {
        self.conversations@
    }
}

/// The session that `event` reports as configured, if it is the event that a
/// conversation has to begin with: one that answers the initial submission.
pub open spec fn configured_session<B: Backend>(
    event: Event<B>,
    initial_submit_id: Seq<char>,
) -> Option<B::SessionConfigured> {
    match event.msg {
        EventMsg::SessionConfigured(session) if event.id@ == initial_submit_id => Some(session),
        _ => None,
    }
}

/// What is found under `conversation_id` among the conversations that are kept.
pub open spec fn found<B: Backend>(
    conversations: Map<u128, Arc<CodexConversation<B>>>,
    conversation_id: u128,
) -> Result<Arc<CodexConversation<B>>, CodexErr<B::Error>> {
    if conversations.contains_key(conversation_id) {
        Ok(conversations[conversation_id])
    } else {
        Err(CodexErr::ConversationNotFound(conversation_id))
    }
}

impl<B: Backend> ConversationManager<B> {
    /// The access to credentials that every new conversation is given.
    pub closed spec fn auth(self) -> Arc<AuthManager<B>> {
        self.auth_manager
    }

    /// A manager that keeps no conversation yet.
    pub fn new(auth_manager: Arc<AuthManager<B>>) -> (r: Self)
        ensures
            r@ == Map::<u128, Arc<CodexConversation<B>>>::empty(),
            r.auth() == auth_manager,
    {
        broadcast use vstd::std_specs::hash::group_hash_axioms;

        ConversationManager { conversations: HashMap::new(), auth_manager }
    }

    /// A manager whose conversations use the credentials `auth`. Meant for
    /// tests.
    pub fn with_auth(auth: B::CodexAuth) -> (r: Self)
        ensures
            r@ == Map::<u128, Arc<CodexConversation<B>>>::empty(),
            *r.auth() == AuthManager::<B>::Testing(auth),
    {
        Self::new(AuthManager::from_auth_for_testing(auth))
    }

    /// What the agent of a new conversation is started with: there is no
    /// history to start from.
    pub fn new_conversation(&self, config: B::Config) -> (r: SpawnRequest<B>)
        ensures
            r == (SpawnRequest { config, auth_manager: self.auth(), initial_history: None }),
    {
        SpawnRequest { config, auth_manager: self.auth_manager.clone(), initial_history: None }
    }

    /// What the agent of a fork is started with: the history of the
    /// conversation without its last `num_messages_to_drop` messages of the
    /// user and all that follows them.
    pub fn fork_conversation(
        &self,
        conversation_history: Vec<ResponseItem>,
        num_messages_to_drop: usize,
        config: B::Config,
    ) -> (r: SpawnRequest<B>)
        ensures
            r.config == config,
            r.auth_manager == self.auth(),
            r.initial_history matches Some(history) && history@ == history::truncated(
                conversation_history@,
                num_messages_to_drop as nat,
            ),
    {
        let truncated_history = history::truncate_after_dropping_last_messages(
            conversation_history,
            num_messages_to_drop,
        );
        SpawnRequest {
            config,
            auth_manager: self.auth_manager.clone(),
            initial_history: Some(truncated_history),
        }
    }

    /// What an attempt to start an agent comes to. Both new conversations and
    /// forks go on from here.
    pub fn spawn_conversation(&self, spawned: Result<CodexSpawnOk<B>, B::Error>) -> (r: Result<
        CodexSpawnOk<B>,
        CodexErr<B::Error>,
    >)
        ensures
            r == (match spawned {
                Ok(spawned) => Ok::<CodexSpawnOk<B>, CodexErr<B::Error>>(spawned),
                Err(error) => Err(CodexErr::Agent(error)),
            }),
    {
        match spawned {
            Ok(spawned) => Ok(spawned),
            Err(error) => Err(CodexErr::Agent(error)),
        }
    }

    /// Keeps the conversation of an agent that has been started, provided that
    /// its first event reports the session as configured in answer to the
    /// initial submission. Otherwise nothing is kept.
    pub fn finalize_spawn(
        &mut self,
        spawned: CodexSpawnOk<B>,
        initial_submit_id: &str,
        first_event: Result<Event<B>, B::Error>,
    ) -> (r: Result<NewConversation<B>, CodexErr<B::Error>>)
        ensures
            final(self).auth() == old(self).auth(),
            match first_event {
                Err(error) => r == Err::<NewConversation<B>, CodexErr<B::Error>>(
                    CodexErr::Agent(error),
                ),
                Ok(event) => match configured_session(event, initial_submit_id@) {
                    None => r == Err::<NewConversation<B>, CodexErr<B::Error>>(
                        CodexErr::SessionConfiguredNotFirstEvent,
                    ),
                    Some(session) => r matches Ok(new) && {
                        &&& new.conversation_id == spawned.session_id
                        &&& new.conversation@ == spawned.codex
                        &&& new.session_configured == session
                    },
                },
            },
            final(self)@ == (match r {
                Ok(new) => old(self)@.insert(new.conversation_id, new.conversation),
                Err(_) => old(self)@,
            }),
    {
        broadcast use vstd::std_specs::hash::group_hash_axioms;

        let event = match first_event {
            Ok(event) => event,
            Err(error) => {
                return Err(CodexErr::Agent(error));
            },
        };
        let session_configured = match event.msg {
            EventMsg::SessionConfigured(session_configured) => {
                if !chars::same_text(event.id.as_str(), initial_submit_id) {
                    return Err(CodexErr::SessionConfiguredNotFirstEvent);
                }
                session_configured
            },
            _ => {
                return Err(CodexErr::SessionConfiguredNotFirstEvent);
            },
        };
        let conversation_id = spawned.session_id;
        let conversation = Arc::new(CodexConversation::new(spawned.codex));
        self.conversations.insert(conversation_id, conversation.clone());
        Ok(NewConversation { conversation_id, conversation, session_configured })
    }

    /// The conversation with the id `conversation_id`.
    pub fn get_conversation(&self, conversation_id: u128) -> (r: Result<
        Arc<CodexConversation<B>>,
        CodexErr<B::Error>,
    >)
        ensures
            r == found(self@, conversation_id),
    {
        broadcast use vstd::std_specs::hash::group_hash_axioms;

        match self.conversations.get(&conversation_id) {
            Some(conversation) => Ok(conversation.clone()),
            None => Err(CodexErr::ConversationNotFound(conversation_id)),
        }
    }

    /// Keeps the conversation with the id `conversation_id` no longer. Who
    /// holds it already may go on using it.
    pub fn remove_conversation(&mut self, conversation_id: u128)
        ensures
            final(self)@ == old(self)@.remove(conversation_id),
            final(self).auth() == old(self).auth(),
    {
        broadcast use vstd::std_specs::hash::group_hash_axioms;

        self.conversations.remove(&conversation_id);
    }
}

// ---------------------------------------------------------------------------
// Laws
// ---------------------------------------------------------------------------

/// A conversation that was kept is found under its id; every other conversation
/// is found as before.
pub proof fn law_kept_conversation_is_found<B: Backend>(
    conversations: Map<u128, Arc<CodexConversation<B>>>,
    id: u128,
    conversation: Arc<CodexConversation<B>>,
    other: u128,
)
    ensures
        found(conversations.insert(id, conversation), id) == Ok::<
            Arc<CodexConversation<B>>,
            CodexErr<B::Error>,
        >(conversation),
        other != id ==> found(conversations.insert(id, conversation), other) == found(
            conversations,
            other,
        ),
{
}

/// A conversation that was removed is not found any more, whether or not it was
/// kept before; every other conversation is found as before.
pub proof fn law_removed_conversation_is_not_found<B: Backend>(
    conversations: Map<u128, Arc<CodexConversation<B>>>,
    id: u128,
    other: u128,
)
    ensures
        found(conversations.remove(id), id) == Err::<
            Arc<CodexConversation<B>>,
            CodexErr<B::Error>,
        >(CodexErr::ConversationNotFound(id)),
        other != id ==> found(conversations.remove(id), other) == found(conversations, other),
{
}

/// Removing a conversation undoes keeping it, where its id was new.
pub proof fn law_removing_undoes_keeping<B: Backend>(
    conversations: Map<u128, Arc<CodexConversation<B>>>,
    id: u128,
    conversation: Arc<CodexConversation<B>>,
)
    requires
        !conversations.contains_key(id),
    ensures
        conversations.insert(id, conversation).remove(id) == conversations,
{
    assert(conversations.insert(id, conversation).remove(id) =~= conversations);
}

/// A change to the conversations that are kept.
pub enum ConversationChange<B: Backend> {
    Kept { id: u128, conversation: Arc<CodexConversation<B>> },
    Removed { id: u128 },
}

impl<B: Backend> ConversationChange<B> {
    /// The id of the conversation that the change is about.
    pub open spec fn changed_id(self) -> u128 {
        match self {
            ConversationChange::Kept { id, conversation } => id,
            ConversationChange::Removed { id } => id,
        }
    }
}

/// The conversations that are kept after `changes`, one after the other.
pub open spec fn conversations_after<B: Backend>(
    conversations: Map<u128, Arc<CodexConversation<B>>>,
    changes: Seq<ConversationChange<B>>,
) -> Map<u128, Arc<CodexConversation<B>>>
    decreases changes.len(),
{
    if changes.len() == 0 {
        conversations
    } else {
        let before = conversations_after(conversations, changes.drop_last());
        match changes.last() {
            ConversationChange::Kept { id, conversation } => before.insert(id, conversation),
            ConversationChange::Removed { id } => before.remove(id),
        }
    }
}

/// However many conversations come and go: what is found under an id stays the
/// same as long as no change is about that id.
pub proof fn law_conversations_do_not_disturb_each_other<B: Backend>(
    conversations: Map<u128, Arc<CodexConversation<B>>>,
    changes: Seq<ConversationChange<B>>,
    id: u128,
)
    requires
        forall|i: int| 0 <= i < changes.len() ==> (#[trigger] changes[i]).changed_id() != id,
    ensures
        found(conversations_after(conversations, changes), id) == found(conversations, id),
    decreases changes.len(),
{
    if changes.len() > 0 {
        let init = changes.drop_last();
        assert forall|i: int| 0 <= i < init.len() implies (#[trigger] init[i]).changed_id()
            != id by {
            assert(init[i] == changes[i]);
        }
        law_conversations_do_not_disturb_each_other(conversations, init, id);
        assert(changes[changes.len() - 1].changed_id() != id);
    }
}

// ---------------------------------------------------------------------------
// Single calls
// ---------------------------------------------------------------------------

/// A conversation is kept, and handed back, just where its first event reports
/// a session as configured under the id of the initial submission. It is kept
/// under the id of the session, it is the one that was started, and the session
/// is the one that was reported. In every other case nothing is kept, and the
/// reason is given; a failure of the agent is handed on as it is.
pub proof fn law_only_a_configured_session_is_kept<B: Backend>(
    manager: &mut ConversationManager<B>,
    spawned: CodexSpawnOk<B>,
    initial_submit_id: &str,
    first_event: Result<Event<B>, B::Error>,
    r: Result<NewConversation<B>, CodexErr<B::Error>>,
)
    requires
        call_ensures(
            ConversationManager::<B>::finalize_spawn,
            (manager, spawned, initial_submit_id, first_event),
            r,
        ),
    ensures
        r is Ok <==> (first_event matches Ok(event) && event.id@ == initial_submit_id@
            && event.msg is SessionConfigured),
        r matches Ok(new) ==> new.conversation_id == spawned.session_id && new.conversation@
            == spawned.codex && EventMsg::<B>::SessionConfigured(new.session_configured)
            == first_event->Ok_0.msg,
        r matches Ok(new) ==> final(manager)@.contains_key(spawned.session_id) && final(
            manager)@[spawned.session_id] == new.conversation,
        forall|id: u128|
            r is Err || id != spawned.session_id ==> found(final(manager)@, id) == #[trigger] found(
                old(manager)@,
                id,
            ),
        first_event matches Ok(_) && r is Err ==> r->Err_0
            == CodexErr::<B::Error>::SessionConfiguredNotFirstEvent,
        first_event matches Err(error) ==> r->Err_0 == CodexErr::Agent(error),
        final(manager).auth() == old(manager).auth(),
{
}

/// A conversation that is kept is found, one that is not is not, and the error
/// names the id that was asked for.
pub proof fn law_what_is_kept_is_found<B: Backend>(
    manager: &ConversationManager<B>,
    id: u128,
    r: Result<Arc<CodexConversation<B>>, CodexErr<B::Error>>,
)
    requires
        call_ensures(ConversationManager::<B>::get_conversation, (manager, id), r),
    ensures
        r is Ok <==> manager@.contains_key(id),
        r matches Ok(conversation) ==> conversation == manager@[id],
        r matches Err(error) ==> error == CodexErr::<B::Error>::ConversationNotFound(id),
{
}

/// Removing a conversation takes that one away and no other.
pub proof fn law_one_conversation_is_removed<B: Backend>(
    manager: &mut ConversationManager<B>,
    id: u128,
    other: u128,
    r: (),
)
    requires
        call_ensures(ConversationManager::<B>::remove_conversation, (manager, id), r),
    ensures
        final(manager)@.contains_key(other) <==> old(manager)@.contains_key(other) && other != id,
        final(manager)@.contains_key(other) ==> final(manager)@[other] == old(manager)@[other],
        final(manager).auth() == old(manager).auth(),
{
}

/// A manager begins with no conversation, and gives every conversation the
/// access to credentials that it was made with.
pub proof fn law_new_manager_is_empty<B: Backend>(
    auth_manager: Arc<AuthManager<B>>,
    auth: B::CodexAuth,
    shared: ConversationManager<B>,
    testing: ConversationManager<B>,
    id: u128,
)
    requires
        call_ensures(ConversationManager::<B>::new, (auth_manager,), shared),
        call_ensures(ConversationManager::<B>::with_auth, (auth,), testing),
    ensures
        !shared@.contains_key(id),
        !testing@.contains_key(id),
        shared.auth() == auth_manager,
        *testing.auth() == AuthManager::<B>::Testing(auth),
{
}

/// A new conversation starts from the given configuration, without a history. A
/// fork starts from the given configuration too, and from the history without
/// its last exchanges, as many as were to be dropped: each opened by a message of
/// the user, whatever that holds.
pub proof fn law_fork_starts_from_what_is_left<B: Backend>(
    manager: &ConversationManager<B>,
    config: B::Config,
    new: SpawnRequest<B>,
    items: Vec<ResponseItem>,
    n: usize,
    fork: SpawnRequest<B>,
    preamble: Seq<ResponseItem>,
    exchanges: Seq<Exchange>,
)
    requires
        call_ensures(ConversationManager::<B>::new_conversation, (manager, config), new),
        call_ensures(ConversationManager::<B>::fork_conversation, (manager, items, n, config), fork),
        items@ == history_of(preamble, exchanges),
        without_user(preamble),
        are_exchanges(exchanges),
    ensures
        new.config == config,
        new.auth_manager == manager.auth(),
        new.initial_history is None,
        fork.config == config,
        fork.auth_manager == manager.auth(),
        fork.initial_history matches Some(history) && (if n <= exchanges.len() {
            history@ == history_of(preamble, exchanges.take(exchanges.len() - n))
        } else {
            history@.len() == 0
        }),
{
    history::lemma_exchanges_are_dropped(preamble, exchanges, n as nat);
}

/// An agent that was started is handed on as it is, and so is the reason where
/// it was not.
pub proof fn law_spawned_agent_is_handed_on<B: Backend>(
    manager: &ConversationManager<B>,
    spawned: Result<CodexSpawnOk<B>, B::Error>,
    r: Result<CodexSpawnOk<B>, CodexErr<B::Error>>,
)
    requires
        call_ensures(ConversationManager::<B>::spawn_conversation, (manager, spawned), r),
    ensures
        spawned matches Ok(agent) ==> r == Ok::<CodexSpawnOk<B>, CodexErr<B::Error>>(agent),
        spawned matches Err(error) ==> r == Err::<CodexSpawnOk<B>, CodexErr<B::Error>>(
            CodexErr::Agent(error),
        ),
{
}

/// A conversation owns the connection that it was made with, and credentials are
/// reached by what was handed in.
pub proof fn law_nothing_is_exchanged_on_the_way<B: Backend>(
    codex: B::Codex,
    conversation: CodexConversation<B>,
    lent: &B::Codex,
    manager: B::AuthManager,
    shared: Arc<AuthManager<B>>,
    auth: B::CodexAuth,
    testing: Arc<AuthManager<B>>,
)
    requires
        call_ensures(CodexConversation::<B>::new, (codex,), conversation),
        call_ensures(CodexConversation::<B>::codex, (&conversation,), lent),
        call_ensures(AuthManager::<B>::new, (manager,), shared),
        call_ensures(AuthManager::<B>::from_auth_for_testing, (auth,), testing),
    ensures
        conversation@ == codex,
        *lent == codex,
        *shared == AuthManager::<B>::Shared(manager),
        *testing == AuthManager::<B>::Testing(auth),
{
}

} // verus!
