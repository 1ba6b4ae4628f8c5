//! The agent's side of the user interface: events of a conversation go to the
//! application, requests of the user go to the conversation.

use std::sync::Arc;
use vstd::prelude::*;

use crate::app_event::AppEvent;
use crate::conversation_manager::{CodexConversation, CodexErr, NewConversation};
use crate::protocol::{Backend, Event, EventMsg};

verus! {

/// A conversation whose events are forwarded from now on.
pub struct Agent<B: Backend> {
    pub conversation: Arc<CodexConversation<B>>,
    /// What the application is sent before anything else.
    pub first_event: AppEvent<B>,
}

/// `event` tells the application that the session is configured. Nobody reads
/// the id of that event, and it is empty.
pub open spec fn reports_configured<B: Backend>(
    event: AppEvent<B>,
    session: B::SessionConfigured,
) -> bool {
    &&& event matches AppEvent::CodexEvent(event)
    &&& event.id@ == Seq::<char>::empty()
    &&& event.msg == EventMsg::<B>::SessionConfigured(session)
}

/// Starts the forwarding for a conversation that exists already, such as a
/// fork: the application is told first that the session is configured.
pub fn spawn_agent_from_existing<B: Backend>(
    conversation: Arc<CodexConversation<B>>,
    session_configured: B::SessionConfigured,
) -> (r: Agent<B>)
    ensures
        r.conversation == conversation,
        reports_configured(r.first_event, session_configured),
{
    let event = Event { id: String::new(), msg: EventMsg::SessionConfigured(session_configured) };
    Agent { conversation, first_event: AppEvent::CodexEvent(event) }
}

/// What is logged where the conversation could not be created; `error` is how
/// the failure is displayed.
pub fn initialization_failure(error: &str) -> (r: String)
    ensures
        r@ == "failed to initialize codex: "@ + error@,
{
    "failed to initialize codex: ".to_string().concat(error)
}

/// Starts the forwarding for a conversation that was to be created. Where that
/// has failed nothing is forwarded, and the failure is handed back, to be logged
/// as [`initialization_failure`] says.
pub fn spawn_agent<B: Backend>(
    created: Result<NewConversation<B>, CodexErr<B::Error>>,
) -> (r: Result<Agent<B>, CodexErr<B::Error>>)
    ensures
        match created {
            Ok(new) => r matches Ok(agent) && {
                &&& agent.conversation == new.conversation
                &&& reports_configured(agent.first_event, new.session_configured)
            },
            Err(error) => r == Err::<Agent<B>, CodexErr<B::Error>>(error),
        },
{
    match created {
        Ok(new) => Ok(spawn_agent_from_existing(new.conversation, new.session_configured)),
        Err(error) => Err(error),
    }
}

// ---------------------------------------------------------------------------
// Events
// ---------------------------------------------------------------------------

/// What the application is sent for the next event of the conversation. `None`
/// ends the forwarding.
pub open spec fn forwarded<B: Backend>(next: Result<Event<B>, B::Error>) -> Option<AppEvent<B>> {
    match next {
        Ok(event) => Some(AppEvent::CodexEvent(event)),
        Err(_) => None,
    }
}

/// Forwards the next event of the conversation. Where there is none any more
/// the forwarding ends.
pub fn forward_event<B: Backend>(next: Result<Event<B>, B::Error>) -> (r: Option<AppEvent<B>>)
    ensures
        r == forwarded(next),
{
    match next {
        Ok(event) => Some(AppEvent::CodexEvent(event)),
        Err(_) => None,
    }
}

/// What the application is sent while the conversation delivers `stream`.
pub open spec fn all_forwarded<B: Backend>(stream: Seq<Result<Event<B>, B::Error>>) -> Seq<
    AppEvent<B>,
>
    decreases stream.len(),
{
    if stream.len() == 0 {
        Seq::empty()
    } else {
        match forwarded(stream.first()) {
            Some(event) => seq![event] + all_forwarded(stream.drop_first()),
            None => Seq::empty(),
        }
    }
}

/// The application is sent every event up to the first failure, unchanged and
/// in order, and nothing after it.
pub proof fn law_events_are_forwarded_in_order<B: Backend>(
    events: Seq<Event<B>>,
    rest: Seq<Result<Event<B>, B::Error>>,
)
    requires
        rest.len() > 0 ==> rest.first() is Err,
    ensures
        all_forwarded(events.map_values(|event: Event<B>| Ok::<Event<B>, B::Error>(event)) + rest)
            == events.map_values(|event: Event<B>| AppEvent::CodexEvent(event)),
    decreases events.len(),
{
    let ok = |event: Event<B>| Ok::<Event<B>, B::Error>(event);
    let sent = |event: Event<B>| AppEvent::CodexEvent(event);
    let stream = events.map_values(ok) + rest;
    if events.len() == 0 {
        assert(stream =~= rest);
        assert(events.map_values(sent) =~= Seq::<AppEvent<B>>::empty());
    } else {
        let tail = events.drop_first();
        law_events_are_forwarded_in_order(tail, rest);
        assert(stream.drop_first() =~= tail.map_values(ok) + rest);
        assert(stream.first() == Ok::<Event<B>, B::Error>(events.first()));
        assert(events.map_values(sent) =~= seq![AppEvent::CodexEvent(events.first())]
            + tail.map_values(sent));
    }
}

/// All that an agent sends the application while its conversation delivers
/// `stream`.
pub open spec fn all_sent<B: Backend>(
    agent: Agent<B>,
    stream: Seq<Result<Event<B>, B::Error>>,
) -> Seq<AppEvent<B>> {
    seq![agent.first_event] + all_forwarded(stream)
}

/// The application is told first that the session is configured, and then every
/// event of the conversation up to the first failure, unchanged and in order.
pub proof fn law_configured_session_comes_first<B: Backend>(
    agent: Agent<B>,
    session: B::SessionConfigured,
    events: Seq<Event<B>>,
    rest: Seq<Result<Event<B>, B::Error>>,
)
    requires
        reports_configured(agent.first_event, session),
        rest.len() > 0 ==> rest.first() is Err,
    ensures
        ({
            let sent = all_sent(
                agent,
                events.map_values(|event: Event<B>| Ok::<Event<B>, B::Error>(event)) + rest,
            );
            &&& sent.len() == events.len() + 1
            &&& reports_configured(sent[0], session)
            &&& sent.skip(1) == events.map_values(|event: Event<B>| AppEvent::CodexEvent(event))
        }),
{
    law_events_are_forwarded_in_order(events, rest);
    let stream = events.map_values(|event: Event<B>| Ok::<Event<B>, B::Error>(event)) + rest;
    assert(all_sent(agent, stream).skip(1) =~= all_forwarded(stream));
}

// ---------------------------------------------------------------------------
// Requests
// ---------------------------------------------------------------------------

/// What the loop that hands requests to the conversation waits for.
pub enum OpInput<B: Backend> {
    /// The next request of the user, or `None` once there will be no more.
    Received(Option<B::Op>),
    /// The conversation took the request, under an id, or it did not.
    Submitted(Result<String, String>),
}

/// What the loop that hands requests to the conversation does next.
pub enum OpAction<B: Backend> {
    /// Hand a request to the conversation.
    Submit(B::Op),
    /// Wait for the next request, after `error` was logged if there is one.
    Receive { error: Option<String> },
    /// End.
    End,
}

/// `action` is what the loop does about `input`.
pub open spec fn answers<B: Backend>(input: OpInput<B>, action: OpAction<B>) -> bool {
    match input {
        OpInput::Received(Some(op)) => action == OpAction::<B>::Submit(op),
        OpInput::Received(None) => action == OpAction::<B>::End,
        OpInput::Submitted(Ok(_)) => action == (OpAction::<B>::Receive { error: None }),
        OpInput::Submitted(Err(error)) => {
            &&& action matches OpAction::Receive { error: Some(logged) }
            &&& logged@ == "failed to submit op: "@ + error@
        },
    }
}

/// The loop that hands requests to the conversation: each is handed on, and a
/// failure is logged and does not end the loop.
pub fn forward_op<B: Backend>(input: OpInput<B>) -> (r: OpAction<B>)
    ensures
        answers(input, r),
{
    match input {
        OpInput::Received(Some(op)) => OpAction::Submit(op),
        OpInput::Received(None) => OpAction::End,
        OpInput::Submitted(Ok(_)) => OpAction::Receive { error: None },
        OpInput::Submitted(Err(error)) => OpAction::Receive {
            error: Some("failed to submit op: ".to_string().concat(error.as_str())),
        },
    }
}

/// The requests that came in with `inputs`.
pub open spec fn received<B: Backend>(inputs: Seq<OpInput<B>>) -> Seq<B::Op>
    decreases inputs.len(),
{
    if inputs.len() == 0 {
        Seq::empty()
    } else {
        received(inputs.drop_last()) + match inputs.last() {
            OpInput::Received(Some(op)) => seq![op],
            _ => Seq::empty(),
        }
    }
}

/// The requests that `actions` hand to the conversation.
pub open spec fn submitted<B: Backend>(actions: Seq<OpAction<B>>) -> Seq<B::Op>
    decreases actions.len(),
{
    if actions.len() == 0 {
        Seq::empty()
    } else {
        submitted(actions.drop_last()) + match actions.last() {
            OpAction::Submit(op) => seq![op],
            _ => Seq::empty(),
        }
    }
}

/// Every request is handed to the conversation once, in the order in which the
/// requests came, whatever becomes of the others.
pub proof fn law_requests_are_submitted_in_order<B: Backend>(
    inputs: Seq<OpInput<B>>,
    actions: Seq<OpAction<B>>,
)
    requires
        inputs.len() == actions.len(),
        forall|i: int| 0 <= i < inputs.len() ==> answers(#[trigger] inputs[i], actions[i]),
    ensures
        submitted(actions) == received(inputs),
    decreases inputs.len(),
{
    if inputs.len() > 0 {
        assert forall|i: int| 0 <= i < inputs.drop_last().len() implies answers(
            #[trigger] inputs.drop_last()[i],
            actions.drop_last()[i],
        ) by {
            assert(answers(inputs[i], actions[i]));
        }
        law_requests_are_submitted_in_order(inputs.drop_last(), actions.drop_last());
        assert(answers(inputs[inputs.len() - 1], actions[inputs.len() - 1]));
    }
}

// ---------------------------------------------------------------------------
// Single steps
// ---------------------------------------------------------------------------

/// The first thing that the application hears of a conversation, whether it is
/// new or existed before, is the session that was reported as configured, under
/// an empty id; and the conversation is the one that was handed in.
pub proof fn law_session_is_reported_as_it_came<B: Backend>(
    conversation: Arc<CodexConversation<B>>,
    session_configured: B::SessionConfigured,
    existing: Agent<B>,
    conversation_id: u128,
    started: Result<Agent<B>, CodexErr<B::Error>>,
)
    requires
        call_ensures(
            spawn_agent_from_existing::<B>,
            (conversation, session_configured),
            existing,
        ),
        call_ensures(
            spawn_agent::<B>,
            (Ok(NewConversation { conversation_id, conversation, session_configured }),),
            started,
        ),
    ensures
        existing.conversation == conversation,
        existing.first_event matches AppEvent::CodexEvent(event) && event.id@.len() == 0
            && event.msg == EventMsg::<B>::SessionConfigured(session_configured),
        started matches Ok(agent) && agent.conversation == conversation && (
        agent.first_event matches AppEvent::CodexEvent(event) && event.id@.len() == 0 && event.msg
            == EventMsg::<B>::SessionConfigured(session_configured)),
{
}

/// Where the conversation could not be created nothing is forwarded, and the
/// reason is the one that was given.
pub proof fn law_failed_start_is_handed_back<B: Backend>(
    error: CodexErr<B::Error>,
    r: Result<Agent<B>, CodexErr<B::Error>>,
)
    requires
        call_ensures(spawn_agent::<B>, (Err(error),), r),
    ensures
        r == Err::<Agent<B>, CodexErr<B::Error>>(error),
{
}

/// Every event of the conversation reaches the application unchanged, whatever
/// it is; a failure, whatever it is, ends the forwarding.
pub proof fn law_every_event_is_forwarded<B: Backend>(
    next: Result<Event<B>, B::Error>,
    r: Option<AppEvent<B>>,
)
    requires
        call_ensures(forward_event::<B>, (next,), r),
    ensures
        next matches Ok(event) ==> r == Some(AppEvent::CodexEvent(event)),
        next is Err ==> r is None,
{
}

/// Every request is handed to the conversation as it came. Only the end of the
/// requests ends the loop: whatever becomes of a submission, the next request
/// is waited for, and a failure is logged with its reason.
pub proof fn law_only_the_last_request_ends_the_loop<B: Backend>(
    input: OpInput<B>,
    r: OpAction<B>,
)
    requires
        call_ensures(forward_op::<B>, (input,), r),
    ensures
        r is End <==> (input matches OpInput::Received(request) && request is None),
        input matches OpInput::Received(Some(op)) ==> r == OpAction::<B>::Submit(op),
        input matches OpInput::Submitted(Ok(_)) ==> r == (OpAction::<B>::Receive { error: None }),
        match input {
            OpInput::Submitted(Err(reason)) => r matches OpAction::Receive { error } && (
            error matches Some(text) && text@ == "failed to submit op: "@ + reason@),
            _ => true,
        },
{
}

/// What is logged gives the reason of the failure.
pub proof fn law_initialization_failure_gives_the_reason(error: &str, r: String)
    requires
        call_ensures(initialization_failure, (error,), r),
    ensures
        r@ == "failed to initialize codex: "@ + error@,
{
}

} // verus!
